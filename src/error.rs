use vstd::prelude::*;

verus! {

/// Every way in which an instruction of the game can be refused.
/// A refused instruction leaves every record and every balance as it was.
#[derive(Clone, Copy, Debug, PartialEq, Eq, Structural)]
pub enum GameError {
    /// The wager does not exceed the configured minimum.
    InvalidBetAmount,
    /// The net gain of the wager is not below the configured maximum payout.
    InvalidBetAmountMaxWinAmountViolation,
    /// The player cannot cover the wager.
    InsufficientUserBalance,
    /// The house vault cannot cover the request.
    InsufficientCasinoVault,
    RoundNumMismatch,
    NotAllowedDoubleBet,
    /// The round record belongs to another player.
    NotOriginalPlayer,
    NotAllowedStatus,
    /// A return-to-player ratio of 100 percent or more.
    InvalidRtp,
    /// The signer is not the operations authority.
    UnauthorizedOperator,
    /// The signer is not the finance authority.
    UnauthorizedFinanceAdmin,
    /// The signer is not the parameter-update authority.
    UnauthorizedUpdateAdmin,
    /// The chosen side and threshold leave no chance to win, or no chance to lose.
    InvalidTargetNumber,
    /// The signer is not the super-admin.
    UnauthorizedSuperAdmin,
    /// The round has already been settled.
    RoundAlreadySettled,
    /// The source of a transfer holds less than the amount.
    InsufficientBalance,
    /// The seeds handed to a program transfer do not derive the source's address.
    InvalidSignerSeeds,
}

/// The message shown for each error.
pub open spec fn error_message(e: GameError) -> &'static str {
    match e {
        GameError::InvalidBetAmount => "Invalid bet amount",
        GameError::InvalidBetAmountMaxWinAmountViolation => "Invalid bet amount violating MaxWinAmount",
        GameError::InsufficientUserBalance => "Insufficient User SOL Balance",
        GameError::InsufficientCasinoVault => "Insufficient Casino Bank SOL Balance",
        GameError::RoundNumMismatch => "Mismatching Round Number",
        GameError::NotAllowedDoubleBet => "Not allowed to double bet",
        GameError::NotOriginalPlayer => "Not Original Player",
        GameError::NotAllowedStatus => "Not Allowed Game Status",
        GameError::InvalidRtp => "Invalid RTP",
        GameError::UnauthorizedOperator => "Only Operation Admin can call this",
        GameError::UnauthorizedFinanceAdmin => "Only Financial Admin can call this",
        GameError::UnauthorizedUpdateAdmin => "Only Update Admin can call this",
        GameError::InvalidTargetNumber => "Invalid Target Number",
        GameError::UnauthorizedSuperAdmin => "Only Super Admin can call this",
        GameError::RoundAlreadySettled => "Round already settled",
        GameError::InsufficientBalance => "Insufficient balance for transfer",
        GameError::InvalidSignerSeeds => "Signer seeds do not derive the source account",
    }
}

impl GameError {
    /// The message shown for the error.
    pub fn message(&self) -> (r: &'static str)
        ensures
            r == error_message(*self),
    {
        match self {
            GameError::InvalidBetAmount => "Invalid bet amount",
            GameError::InvalidBetAmountMaxWinAmountViolation => "Invalid bet amount violating MaxWinAmount",
            GameError::InsufficientUserBalance => "Insufficient User SOL Balance",
            GameError::InsufficientCasinoVault => "Insufficient Casino Bank SOL Balance",
            GameError::RoundNumMismatch => "Mismatching Round Number",
            GameError::NotAllowedDoubleBet => "Not allowed to double bet",
            GameError::NotOriginalPlayer => "Not Original Player",
            GameError::NotAllowedStatus => "Not Allowed Game Status",
            GameError::InvalidRtp => "Invalid RTP",
            GameError::UnauthorizedOperator => "Only Operation Admin can call this",
            GameError::UnauthorizedFinanceAdmin => "Only Financial Admin can call this",
            GameError::UnauthorizedUpdateAdmin => "Only Update Admin can call this",
            GameError::InvalidTargetNumber => "Invalid Target Number",
            GameError::UnauthorizedSuperAdmin => "Only Super Admin can call this",
            GameError::RoundAlreadySettled => "Round already settled",
            GameError::InsufficientBalance => "Insufficient balance for transfer",
            GameError::InvalidSignerSeeds => "Signer seeds do not derive the source account",
        }
    }
}

} // verus!
