pub mod account;
pub mod constants;
pub mod error;
pub mod payout;
pub mod utils;
pub mod dice;
