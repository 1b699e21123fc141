pub mod lottery;
pub mod treasury;

pub use lottery::{Lottery, LotteryConfig, LotteryState, LotteryStateData, LotteryTiming, LotteryType};
pub use treasury::{Treasury, TreasuryWithdrawal};
