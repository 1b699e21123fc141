use vstd::prelude::*;
use crate::errors::LotteryError;
use crate::utils::narrow;

verus! {

/// Seconds for which a withdrawal locks the treasury: 24 hours.
pub const WITHDRAWAL_COOLDOWN: i64 = 24 * 60 * 60;

/// Basis points in the whole: a fee rate is a number of parts per 10,000.
pub const BPS_DENOMINATOR: u64 = 10_000;

/// The operator's ledger, shared by all rounds.
#[derive(Clone, Copy, Debug, PartialEq, Eq)]
pub struct Treasury {
    pub balance: u64,
    pub fee_bps: u16,
    pub authority: [u8; 32],
    pub token_account: [u8; 32],
    pub total_fees_collected: u64,
    pub last_withdrawal: i64,
    pub time_locked: i64,
    pub bump: u8,
}

/// The record of one withdrawal from the treasury.
#[derive(Clone, Copy, Debug, PartialEq, Eq)]
pub struct TreasuryWithdrawal {
    pub amount: u64,
    pub authority: [u8; 32],
    pub timestamp: i64,
}

/// The fee on an amount at a rate in basis points, rounded down.
pub open spec fn fee_of(amount: int, fee_bps: int) -> int {
    amount * fee_bps / 10_000
}

/// Whether two keys hold the same bytes.
pub fn same_key(a: &[u8; 32], b: &[u8; 32]) -> (same: bool)
    ensures
        same == (a@ == b@),
{
    let mut i: usize = 0;
    while i < 32
        invariant
            i <= 32,
            forall|j: int| 0 <= j < i ==> a@[j] == b@[j],
        decreases 32 - i,
    {
        if a[i] != b[i] {
            return false;
        }
        i += 1;
    }
    assert(a@ =~= b@);
    true
}

impl Treasury {
    /// What collecting the fee on `amount` yields: the ledger after it and the
    /// fee, or the arithmetic fault that stops it.
    pub open spec fn after_collect(self, amount: u64) -> Result<(Treasury, u64), LotteryError> {
        let fee = fee_of(amount as int, self.fee_bps as int);
        if fee > u64::MAX || self.balance + fee > u64::MAX || self.total_fees_collected + fee
            > u64::MAX {
            Err(LotteryError::ArithmeticError)
        } else {
            Ok(
                (
                    Treasury {
                        balance: (self.balance + fee) as u64,
                        total_fees_collected: (self.total_fees_collected + fee) as u64,
                        ..self
                    },
                    fee as u64,
                ),
            )
        }
    }

    /// The ledger after `amount` was credited to its balance.
    pub open spec fn credited(self, amount: u64) -> Treasury {
        Treasury { balance: (self.balance + amount) as u64, ..self }
    }

    /// What a withdrawal yields: the ledger after it, or the reason why it is
    /// refused. The requester is tested first, then the lock, then the
    /// balance.
    pub open spec fn after_withdraw(self, amount: u64, requester: Seq<u8>, now: i64) -> Result<
        Treasury,
        LotteryError,
    > {
        if self.authority@ != requester {
            Err(LotteryError::Unauthorized)
        } else if now <= self.time_locked {
            Err(LotteryError::TimelockActive)
        } else if amount > self.balance {
            Err(LotteryError::InsufficientTreasuryBalance)
        } else if now + WITHDRAWAL_COOLDOWN > i64::MAX {
            Err(LotteryError::ArithmeticError)
        } else {
            Ok(
                Treasury {
                    balance: (self.balance - amount) as u64,
                    last_withdrawal: now,
                    time_locked: (now + WITHDRAWAL_COOLDOWN) as i64,
                    ..self
                },
            )
        }
    }

    /// Takes the fee on `amount` at the treasury's rate and credits it to the
    /// balance and to the lifetime counter. The product is taken in 128 bits;
    /// a fee or a sum that does not fit in 64 bits is an arithmetic fault,
    /// which leaves the ledger untouched.
    pub fn collect_fees(&mut self, amount: u64) -> (result: Result<u64, LotteryError>)
        ensures
            match old(self).after_collect(amount) {
                Ok((ledger, fee)) => result == Ok::<u64, LotteryError>(fee) && *final(self)
                    == ledger,
                Err(e) => result == Err::<u64, LotteryError>(e) && *final(self) == *old(self),
            },
    {
        assert(amount * self.fee_bps <= u64::MAX * u16::MAX <= u128::MAX) by (nonlinear_arith)
            requires
                amount <= u64::MAX,
                self.fee_bps <= u16::MAX,
        ;
        let product = match (amount as u128).checked_mul(self.fee_bps as u128) {
            Some(p) => p,
            None => { return Err(LotteryError::ArithmeticError); },
        };
        let quotient = match product.checked_div(BPS_DENOMINATOR as u128) {
            Some(q) => q,
            None => { return Err(LotteryError::ArithmeticError); },
        };
        let fee = match narrow(quotient) {
            Some(f) => f,
            None => { return Err(LotteryError::ArithmeticError); },
        };
        let balance = match self.balance.checked_add(fee) {
            Some(b) => b,
            None => { return Err(LotteryError::ArithmeticError); },
        };
        let total = match self.total_fees_collected.checked_add(fee) {
            Some(t) => t,
            None => { return Err(LotteryError::ArithmeticError); },
        };
        self.balance = balance;
        self.total_fees_collected = total;
        Ok(fee)
    }

    /// Credits an amount that was swept out of a round to the balance. A
    /// balance that would not fit in 64 bits is an arithmetic fault, which
    /// leaves the ledger untouched.
    pub fn credit(&mut self, amount: u64) -> (result: Result<(), LotteryError>)
        ensures
            old(self).balance + amount <= u64::MAX ==> result is Ok && *final(self) == old(
                self,
            ).credited(amount),
            old(self).balance + amount > u64::MAX ==> result == Err::<(), LotteryError>(
                LotteryError::ArithmeticError,
            ) && *final(self) == *old(self),
    {
        match self.balance.checked_add(amount) {
            Some(balance) => {
                self.balance = balance;
                Ok(())
            },
            None => Err(LotteryError::ArithmeticError),
        }
    }

    /// Withdraws `amount` at time `now` on the request of `requester`.
    ///
    /// Only the treasury's authority may withdraw, only after the lock has
    /// passed, and no more than the balance. A withdrawal that succeeds
    /// debits the balance, records the time and locks the treasury for the
    /// next 24 hours. One that is refused changes nothing.
    pub fn withdraw(&mut self, amount: u64, requester: &[u8; 32], now: i64) -> (result: Result<
        TreasuryWithdrawal,
        LotteryError,
    >)
        ensures
            match old(self).after_withdraw(amount, requester@, now) {
                Ok(ledger) => *final(self) == ledger && result == Ok::<
                    TreasuryWithdrawal,
                    LotteryError,
                >(TreasuryWithdrawal { amount, authority: old(self).authority, timestamp: now }),
                Err(e) => result == Err::<TreasuryWithdrawal, LotteryError>(e) && *final(self)
                    == *old(self),
            },
    {
        if !self.is_authorized_signer(requester) {
            return Err(LotteryError::Unauthorized);
        }
        if !(now > self.time_locked) {
            return Err(LotteryError::TimelockActive);
        }
        if !(amount <= self.balance) {
            return Err(LotteryError::InsufficientTreasuryBalance);
        }
        let unlocks = match now.checked_add(WITHDRAWAL_COOLDOWN) {
            Some(t) => t,
            None => { return Err(LotteryError::ArithmeticError); },
        };
        let balance = match self.balance.checked_sub(amount) {
            Some(b) => b,
            None => { return Err(LotteryError::ArithmeticError); },
        };
        self.time_locked = unlocks;
        self.balance = balance;
        self.last_withdrawal = now;
        Ok(TreasuryWithdrawal { amount, authority: self.authority, timestamp: now })
    }

    /// Whether `signer` is the treasury's authority.
    pub fn is_authorized_signer(&self, signer: &[u8; 32]) -> (authorized: bool)
        ensures
            authorized == (self.authority@ == signer@),
    {
        same_key(&self.authority, signer)
    }
}

/// A withdrawal that succeeds at `now` locks the treasury until 24 hours
/// later: whatever the amount, the authority's next request is refused as
/// long as the time is not past `now + 24h`, and so one second before the
/// lock ends.
pub proof fn lemma_withdrawal_rearms_lock(
    ledger: Treasury,
    amount: u64,
    requester: Seq<u8>,
    now: i64,
    next_amount: u64,
    later: i64,
)
    requires
        ledger.after_withdraw(amount, requester, now) is Ok,
        later <= now + WITHDRAWAL_COOLDOWN,
    ensures
        ledger.after_withdraw(amount, requester, now)->Ok_0.time_locked == now
            + WITHDRAWAL_COOLDOWN,
        ledger.after_withdraw(amount, requester, now)->Ok_0.after_withdraw(
            next_amount,
            requester,
            later,
        ) == Err::<Treasury, LotteryError>(LotteryError::TimelockActive),
{
}

/// Once the lock has passed, the authority can withdraw again, and that
/// withdrawal locks the treasury anew, from its own time.
pub proof fn lemma_consecutive_withdrawals(
    ledger: Treasury,
    amount: u64,
    requester: Seq<u8>,
    now: i64,
    next_amount: u64,
    later: i64,
)
    requires
        ledger.after_withdraw(amount, requester, now) is Ok,
        later > now + WITHDRAWAL_COOLDOWN,
        later + WITHDRAWAL_COOLDOWN <= i64::MAX,
        amount + next_amount <= ledger.balance,
    ensures
        ledger.after_withdraw(amount, requester, now)->Ok_0.after_withdraw(
            next_amount,
            requester,
            later,
        ) is Ok,
        ledger.after_withdraw(amount, requester, now)->Ok_0.after_withdraw(
            next_amount,
            requester,
            later,
        )->Ok_0.time_locked == later + WITHDRAWAL_COOLDOWN,
        ledger.after_withdraw(amount, requester, now)->Ok_0.after_withdraw(
            next_amount,
            requester,
            later,
        )->Ok_0.balance == ledger.balance - amount - next_amount,
{
}

} // verus!
