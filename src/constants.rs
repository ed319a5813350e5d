use vstd::prelude::*;

verus! {

pub const CF_VERSION: &'static str = "0.3";

pub const GLOBAL_AUTHORITY_SEED: &'static str = "global-authority";
pub const VAULT_AUTHORITY_SEED: &'static str = "vault-authority";
pub const PLAYER_POOL_SEED: &'static str = "player-pool";

pub const MAX_NAME_LENGTH: usize = 24;

pub const PERMILLE: u64 = 1000;

/// Default return-to-player ratio, in percent.
pub const RTP: u64 = 95;
pub const MAX_WIN_AMOUNT: u64 = 10000000000;
pub const MIN_BET_AMOUNT: u64 = 100000000;
pub const MIN_NUMBER: u64 = 6;
pub const MAX_NUMBER: u64 = 96;

} // verus!
