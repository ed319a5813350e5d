use vstd::prelude::*;

verus! {

/// A 32-byte account identity: a player, an authority, or a derived account.
#[derive(Clone, Copy, Debug)]
pub struct Address {
    pub bytes: [u8; 32],
}

impl View for Address {
    type V = Seq<u8>;

    open spec fn view(&self) -> Seq<u8> {
        self.bytes@
    }
}

impl Address {
    pub fn new(bytes: [u8; 32]) -> (r: Address)
        ensures
            r@ == bytes@,
    {
        Address { bytes }
    }

    pub fn to_bytes(&self) -> (r: [u8; 32])
        ensures
            r@ == self@,
    {
        self.bytes
    }
}

impl PartialEq for Address {
    fn eq(&self, other: &Address) -> (r: bool) {
        let mut i: usize = 0;
        while i < 32
            invariant
                0 <= i <= 32,
                self.bytes@.len() == 32,
                other.bytes@.len() == 32,
                forall|j: int| 0 <= j < i ==> self.bytes@[j] == other.bytes@[j],
            decreases 32 - i,
        {
            if self.bytes[i] != other.bytes[i] {
                return false;
            }
            i = i + 1;
        }
        assert(self.bytes@ =~= other.bytes@);
        true
    }
}

impl vstd::std_specs::cmp::PartialEqSpecImpl for Address {
    open spec fn obeys_eq_spec() -> bool {
        true
    }

    open spec fn eq_spec(&self, other: &Address) -> bool {
        self@ == other@
    }
}

/// The state of one round.
#[derive(Clone, Copy, Debug, PartialEq, Eq, Structural)]
pub enum GameStatus {
    Active,
    Win,
    Lose,
}

impl Default for GameStatus {
    fn default() -> (r: GameStatus)
        ensures
            r == GameStatus::Active,
    {
        GameStatus::Active
    }
}

/// The global configuration: the four role keys and the betting parameters.
#[derive(Clone, Copy, Debug)]
pub struct GlobalPool {
    pub super_admin: Address,
    pub operation_authority: Address,
    pub finance_authority: Address,
    pub update_authority: Address,
    /// Return-to-player ratio in percent, below 100.
    pub rtp: u64,
    /// Every net gain must stay strictly below this amount.
    pub max_win_amount: u64,
    /// Every wager must strictly exceed this amount.
    pub min_bet_amount: u64,
    pub min_num: u8,
    pub max_num: u8,
}

impl GlobalPool {
    pub const DATA_SIZE: usize = 154;

    /// The ratio stays below 100 percent, so the house keeps an edge.
    pub open spec fn wf(&self) -> bool {
        self.rtp < 100
    }
}

/// The record of one round, keyed by the player and a round sequence number.
#[derive(Clone, Copy, Debug)]
pub struct PlayerPool {
    pub bet: u64,
    pub status: GameStatus,
    /// True: the player wins below the threshold; false: above it.
    pub is_under: bool,
    pub target_num: u8,
    pub player: Address,
}

impl PlayerPool {
    pub const DATA_SIZE: usize = 45;
}

/// The arguments with which a round is opened.
#[derive(Clone, Copy, Debug)]
pub struct InitPlayGameParams {
    pub target_number: u8,
    pub is_under: bool,
    pub bet_amount: u64,
    pub game_session_id: u64,
}

/// The arguments with which a round is settled.
#[derive(Clone, Copy, Debug)]
pub struct SetResultParams {
    pub is_win: bool,
    pub game_session_id: u64,
}

/// An address-identified holder of a balance in base currency units.
#[derive(Clone, Copy, Debug)]
pub struct Wallet {
    pub key: Address,
    pub lamports: u64,
}

/// The accounts of `initialize`: the signer becomes the super-admin.
#[derive(Clone, Copy, Debug)]
pub struct Initialize {
    pub admin: Address,
}

/// The accounts of `play_game`.
#[derive(Clone, Copy, Debug)]
pub struct PlayGame {
    /// The player, who signs and pays the wager.
    pub owner: Wallet,
    /// The co-signer, who must be the operations authority.
    pub operator: Address,
    /// The account that holds the new round record.
    pub player_pool: Wallet,
    pub global_authority: GlobalPool,
    pub casino_vault: Wallet,
    /// The escrow account of the round.
    pub game_vault: Wallet,
    /// The balance that keeps an empty account alive, paid by the player.
    pub rent_exempt_minimum: u64,
}

impl PlayGame {
    pub open spec fn total_lamports(&self) -> int {
        self.owner.lamports + self.player_pool.lamports + self.casino_vault.lamports
            + self.game_vault.lamports
    }
}

/// The accounts of `set_result`.
#[derive(Clone, Copy, Debug)]
pub struct SetResult {
    /// The signer, who must be the operations authority.
    pub operator: Address,
    /// The player named by the caller, who receives the payout of a win.
    pub owner: Wallet,
    pub global_authority: GlobalPool,
    pub player_pool: PlayerPool,
    /// The escrow account of the round.
    pub game_vault: Wallet,
    pub casino_vault: Wallet,
    /// The program that owns the escrow account and the vault.
    pub program_id: Address,
    pub game_session_id: u64,
    pub game_vault_bump: u8,
    pub casino_vault_bump: u8,
}

/// The accounts of `withdraw`.
#[derive(Clone, Copy, Debug)]
pub struct Withdraw {
    /// The signer, who must be the finance authority.
    pub financial_admin: Address,
    pub recipient: Wallet,
    pub global_authority: GlobalPool,
    pub casino_vault: Wallet,
    pub program_id: Address,
    pub casino_vault_bump: u8,
}

/// The accounts of the parameter setters.
#[derive(Clone, Copy, Debug)]
pub struct SetGlobalPool {
    /// The signer, who must be the parameter-update authority.
    pub admin: Address,
    pub global_pool: GlobalPool,
}

/// The accounts of the authority rotations.
#[derive(Clone, Copy, Debug)]
pub struct SetAuthority {
    /// The signer, who must be the super-admin.
    pub admin: Address,
    pub global_pool: GlobalPool,
}

} // verus!
