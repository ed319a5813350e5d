use vstd::prelude::*;
use crate::account::{
    Address, GameStatus, GlobalPool, Initialize, PlayGame, PlayerPool, SetAuthority,
    SetGlobalPool, SetResult, Wallet, Withdraw,
};
use crate::constants::{MAX_NUMBER, MAX_WIN_AMOUNT, MIN_BET_AMOUNT, MIN_NUMBER, RTP};
use crate::error::GameError;
use crate::payout::{calculate_gross_payout, calculate_net_gain, gross_payout, net_gain, valid_target};
use crate::utils::{
    casino_vault_seeds, casino_vault_signer_seeds, game_vault_seeds, game_vault_signer_seeds,
    signed_transfer_outcome, sol_transfer_user, sol_transfer_with_signer, transfer_outcome,
};

verus! {

/// The configuration that `initialize` writes.
pub open spec fn initial_pool(
    admin: Address,
    operate_admin: Address,
    financial_admin: Address,
    update_admin: Address,
) -> GlobalPool {
    GlobalPool {
        super_admin: admin,
        operation_authority: operate_admin,
        finance_authority: financial_admin,
        update_authority: update_admin,
        rtp: RTP,
        max_win_amount: MAX_WIN_AMOUNT,
        min_bet_amount: MIN_BET_AMOUNT,
        min_num: MIN_NUMBER as u8,
        max_num: MAX_NUMBER as u8,
    }
}

/// Creates the configuration: the signer becomes the super-admin, the other
/// roles go to the given keys, and the parameters take their defaults.
pub fn initialize(
    ctx: &Initialize,
    operate_admin: Address,
    financial_admin: Address,
    update_admin: Address,
) -> (r: GlobalPool)
    ensures
        r == initial_pool(ctx.admin, operate_admin, financial_admin, update_admin),
        r.wf(),
{
    GlobalPool {
        super_admin: ctx.admin,
        operation_authority: operate_admin,
        finance_authority: financial_admin,
        update_authority: update_admin,
        rtp: RTP,
        max_win_amount: MAX_WIN_AMOUNT,
        min_bet_amount: MIN_BET_AMOUNT,
        min_num: MIN_NUMBER as u8,
        max_num: MAX_NUMBER as u8,
    }
}

/// The first check that a bet fails, in the order in which they are made.
pub open spec fn play_game_error(ctx: PlayGame, target_number: u8, is_under: bool, bet_amount: u64) -> Option<GameError> {
    let g = ctx.global_authority;
    if ctx.operator@ != g.operation_authority@ {
        Some(GameError::UnauthorizedOperator)
    } else if !(g.min_bet_amount < bet_amount) {
        Some(GameError::InvalidBetAmount)
    } else if !valid_target(target_number, is_under) || target_number < g.min_num
        || target_number > g.max_num {
        Some(GameError::InvalidTargetNumber)
    } else if !(net_gain(bet_amount, target_number, is_under, g.rtp) < g.max_win_amount) {
        Some(GameError::InvalidBetAmountMaxWinAmountViolation)
    } else if !(ctx.owner.lamports > bet_amount) {
        Some(GameError::InsufficientUserBalance)
    } else if !(ctx.casino_vault.lamports > bet_amount) {
        Some(GameError::InsufficientCasinoVault)
    } else if ctx.owner.lamports < ctx.rent_exempt_minimum + bet_amount {
        Some(GameError::InsufficientBalance)
    } else {
        None
    }
}

/// The record of a freshly opened round.
pub open spec fn opened_round(ctx: PlayGame, target_number: u8, is_under: bool, bet_amount: u64) -> PlayerPool {
    PlayerPool {
        bet: bet_amount,
        status: GameStatus::Active,
        is_under,
        target_num: target_number,
        player: ctx.owner.key,
    }
}

/// The result of `play_game` and the accounts after it.
pub open spec fn play_game_outcome(ctx: PlayGame, target_number: u8, is_under: bool, bet_amount: u64) -> (
    Result<PlayerPool, GameError>,
    PlayGame,
) {
    match play_game_error(ctx, target_number, is_under, bet_amount) {
        Some(e) => (Err(e), ctx),
        None => (
            Ok(opened_round(ctx, target_number, is_under, bet_amount)),
            PlayGame {
                owner: Wallet {
                    key: ctx.owner.key,
                    lamports: (ctx.owner.lamports - ctx.rent_exempt_minimum - bet_amount) as u64,
                },
                player_pool: Wallet {
                    key: ctx.player_pool.key,
                    lamports: (ctx.player_pool.lamports + ctx.rent_exempt_minimum) as u64,
                },
                game_vault: Wallet {
                    key: ctx.game_vault.key,
                    lamports: (ctx.game_vault.lamports + bet_amount) as u64,
                },
                ..ctx
            },
        ),
    }
}

/// Opens a round: checks the signer, the wager, the threshold (which must
/// leave a chance both to win and to lose, and lie within the configured
/// bounds) and the payout against the configuration, then moves the
/// record's rent and the wager out of the player's account, the wager into
/// the round's escrow.
pub fn play_game(ctx: &mut PlayGame, target_number: u8, is_under: bool, bet_amount: u64) -> (r: Result<PlayerPool, GameError>)
    requires
        old(ctx).total_lamports() <= u64::MAX,
    ensures
        (r, *final(ctx)) == play_game_outcome(*old(ctx), target_number, is_under, bet_amount),
{
    let g = ctx.global_authority;
    if ctx.operator != g.operation_authority {
        return Err(GameError::UnauthorizedOperator);
    }
    if !(g.min_bet_amount < bet_amount) {
        return Err(GameError::InvalidBetAmount);
    }
    let net_gain = match calculate_net_gain(bet_amount, target_number, is_under, g.rtp) {
        Ok(v) => v,
        Err(e) => {
            return Err(e);
        },
    };
    if target_number < g.min_num || target_number > g.max_num {
        return Err(GameError::InvalidTargetNumber);
    }
    if !(net_gain < g.max_win_amount as u128) {
        return Err(GameError::InvalidBetAmountMaxWinAmountViolation);
    }
    if !(ctx.owner.lamports > bet_amount) {
        return Err(GameError::InsufficientUserBalance);
    }
    if !(ctx.casino_vault.lamports > bet_amount) {
        return Err(GameError::InsufficientCasinoVault);
    }
    let mut owner = ctx.owner;
    let mut player_pool = ctx.player_pool;
    let mut game_vault = ctx.game_vault;
    match sol_transfer_user(&mut owner, &mut player_pool, ctx.rent_exempt_minimum) {
        Ok(()) => {},
        Err(e) => {
            return Err(e);
        },
    }
    match sol_transfer_user(&mut owner, &mut game_vault, bet_amount) {
        Ok(()) => {},
        Err(e) => {
            return Err(e);
        },
    }
    ctx.owner = owner;
    ctx.player_pool = player_pool;
    ctx.game_vault = game_vault;
    Ok(PlayerPool {
        bet: bet_amount,
        status: GameStatus::Active,
        is_under,
        target_num: target_number,
        player: ctx.owner.key,
    })
}


/// What a won round pays the player: the gross payout at the ratio configured now.
pub open spec fn win_payout(ctx: SetResult) -> int {
    let p = ctx.player_pool;
    gross_payout(p.bet, p.target_num, p.is_under, ctx.global_authority.rtp)
}

/// What a won round draws from the vault: the payout less what the escrow
/// already holds, and nothing where the escrow covers it.
pub open spec fn win_top_up(ctx: SetResult) -> int {
    if win_payout(ctx) > ctx.game_vault.lamports {
        win_payout(ctx) - ctx.game_vault.lamports
    } else {
        0
    }
}

/// The record with its final status.
pub open spec fn settled(p: PlayerPool, status: GameStatus) -> PlayerPool {
    PlayerPool { status, ..p }
}

/// A won round: the vault tops the escrow up to the payout, the escrow pays
/// the player, and whatever the escrow still holds goes to the vault.
pub open spec fn win_outcome(ctx: SetResult) -> (Result<(), GameError>, SetResult) {
    let escrow_seeds = game_vault_seeds(ctx.owner.key@, ctx.game_session_id, ctx.game_vault_bump);
    if win_top_up(ctx) > u64::MAX {
        (Err(GameError::InsufficientBalance), ctx)
    } else {
        let (r1, casino1, escrow1) = signed_transfer_outcome(
            ctx.casino_vault,
            ctx.game_vault,
            ctx.program_id@,
            casino_vault_seeds(ctx.casino_vault_bump),
            win_top_up(ctx) as u64,
        );
        let (r2, escrow2, owner2) = signed_transfer_outcome(
            escrow1,
            ctx.owner,
            ctx.program_id@,
            escrow_seeds,
            win_payout(ctx) as u64,
        );
        let (r3, escrow3, casino3) = signed_transfer_outcome(
            escrow2,
            casino1,
            ctx.program_id@,
            escrow_seeds,
            escrow2.lamports,
        );
        if r1 is Err {
            (r1, ctx)
        } else if r2 is Err {
            (r2, ctx)
        } else if r3 is Err {
            (r3, ctx)
        } else {
            (
                Ok(()),
                SetResult {
                    casino_vault: casino3,
                    game_vault: escrow3,
                    owner: owner2,
                    player_pool: settled(ctx.player_pool, GameStatus::Win),
                    ..ctx
                },
            )
        }
    }
}

/// A lost round: the whole escrow goes to the vault.
pub open spec fn loss_outcome(ctx: SetResult) -> (Result<(), GameError>, SetResult) {
    let (res, escrow, casino) = signed_transfer_outcome(
        ctx.game_vault,
        ctx.casino_vault,
        ctx.program_id@,
        game_vault_seeds(ctx.owner.key@, ctx.game_session_id, ctx.game_vault_bump),
        ctx.game_vault.lamports,
    );
    if res is Err {
        (res, ctx)
    } else {
        (
            Ok(()),
            SetResult {
                casino_vault: casino,
                game_vault: escrow,
                player_pool: settled(ctx.player_pool, GameStatus::Lose),
                ..ctx
            },
        )
    }
}

/// The result of `set_result` and the accounts after it.
pub open spec fn set_result_outcome(ctx: SetResult, is_win: bool) -> (Result<(), GameError>, SetResult) {
    let p = ctx.player_pool;
    if ctx.operator@ != ctx.global_authority.operation_authority@ {
        (Err(GameError::UnauthorizedOperator), ctx)
    } else if p.player@ != ctx.owner.key@ {
        (Err(GameError::NotOriginalPlayer), ctx)
    } else if p.status != GameStatus::Active {
        (Err(GameError::RoundAlreadySettled), ctx)
    } else if !valid_target(p.target_num, p.is_under) {
        (Err(GameError::InvalidTargetNumber), ctx)
    } else if is_win {
        win_outcome(ctx)
    } else {
        loss_outcome(ctx)
    }
}

pub open spec fn settle_balances_fit(ctx: SetResult) -> bool {
    ctx.game_vault.lamports + ctx.casino_vault.lamports + ctx.owner.lamports <= u64::MAX
}

/// Settles an active round with the reported outcome. A win tops the escrow
/// up from the vault to the gross payout, pays that to the player and returns
/// any rest to the vault; a loss sweeps the escrow into the vault. Either way
/// the escrow ends empty. The payout uses the ratio configured now.
pub fn set_result(ctx: &mut SetResult, is_win: bool) -> (r: Result<(), GameError>)
    requires
        settle_balances_fit(*old(ctx)),
    ensures
        (r, *final(ctx)) == set_result_outcome(*old(ctx), is_win),
{
    if ctx.operator != ctx.global_authority.operation_authority {
        return Err(GameError::UnauthorizedOperator);
    }
    if ctx.player_pool.player != ctx.owner.key {
        return Err(GameError::NotOriginalPlayer);
    }
    if ctx.player_pool.status != GameStatus::Active {
        return Err(GameError::RoundAlreadySettled);
    }
    let gross = match calculate_gross_payout(
        ctx.player_pool.bet,
        ctx.player_pool.target_num,
        ctx.player_pool.is_under,
        ctx.global_authority.rtp,
    ) {
        Ok(v) => v,
        Err(e) => {
            return Err(e);
        },
    };
    let mut casino_vault = ctx.casino_vault;
    let mut game_vault = ctx.game_vault;
    let escrow_seeds = game_vault_signer_seeds(&ctx.owner.key, ctx.game_session_id, ctx.game_vault_bump);
    if is_win {
        let mut owner = ctx.owner;
        let balance = game_vault.lamports as u128;
        let top_up: u128 = if gross > balance {
            gross - balance
        } else {
            0
        };
        if top_up > u64::MAX as u128 {
            return Err(GameError::InsufficientBalance);
        }
        let vault_seeds = casino_vault_signer_seeds(ctx.casino_vault_bump);
        match sol_transfer_with_signer(
            &mut casino_vault,
            &mut game_vault,
            &ctx.program_id,
            &vault_seeds,
            top_up as u64,
        ) {
            Ok(()) => {},
            Err(e) => {
                return Err(e);
            },
        }
        match sol_transfer_with_signer(
            &mut game_vault,
            &mut owner,
            &ctx.program_id,
            &escrow_seeds,
            gross as u64,
        ) {
            Ok(()) => {},
            Err(e) => {
                return Err(e);
            },
        }
        let rest = game_vault.lamports;
        match sol_transfer_with_signer(
            &mut game_vault,
            &mut casino_vault,
            &ctx.program_id,
            &escrow_seeds,
            rest,
        ) {
            Ok(()) => {},
            Err(e) => {
                return Err(e);
            },
        }
        ctx.owner = owner;
        ctx.player_pool.status = GameStatus::Win;
    } else {
        let amount = game_vault.lamports;
        match sol_transfer_with_signer(
            &mut game_vault,
            &mut casino_vault,
            &ctx.program_id,
            &escrow_seeds,
            amount,
        ) {
            Ok(()) => {},
            Err(e) => {
                return Err(e);
            },
        }
        ctx.player_pool.status = GameStatus::Lose;
    }
    ctx.casino_vault = casino_vault;
    ctx.game_vault = game_vault;
    Ok(())
}

/// The result of `withdraw` and the accounts after it.
pub open spec fn withdraw_outcome(ctx: Withdraw, amount: u64) -> (Result<(), GameError>, Withdraw) {
    if ctx.financial_admin@ != ctx.global_authority.finance_authority@ {
        (Err(GameError::UnauthorizedFinanceAdmin), ctx)
    } else if !(ctx.casino_vault.lamports > amount) {
        (Err(GameError::InsufficientCasinoVault), ctx)
    } else {
        let (res, casino, recipient) = signed_transfer_outcome(
            ctx.casino_vault,
            ctx.recipient,
            ctx.program_id@,
            casino_vault_seeds(ctx.casino_vault_bump),
            amount,
        );
        if res is Err {
            (res, ctx)
        } else {
            (Ok(()), Withdraw { casino_vault: casino, recipient, ..ctx })
        }
    }
}

/// The finance authority moves `amount` from the house vault to the
/// recipient; the vault must hold more than that.
pub fn withdraw(ctx: &mut Withdraw, amount: u64) -> (r: Result<(), GameError>)
    requires
        old(ctx).casino_vault.lamports + old(ctx).recipient.lamports <= u64::MAX,
    ensures
        (r, *final(ctx)) == withdraw_outcome(*old(ctx), amount),
{
    if ctx.financial_admin != ctx.global_authority.finance_authority {
        return Err(GameError::UnauthorizedFinanceAdmin);
    }
    if !(ctx.casino_vault.lamports > amount) {
        return Err(GameError::InsufficientCasinoVault);
    }
    let seeds = casino_vault_signer_seeds(ctx.casino_vault_bump);
    let mut casino_vault = ctx.casino_vault;
    let mut recipient = ctx.recipient;
    match sol_transfer_with_signer(&mut casino_vault, &mut recipient, &ctx.program_id, &seeds, amount) {
        Ok(()) => {},
        Err(e) => {
            return Err(e);
        },
    }
    ctx.casino_vault = casino_vault;
    ctx.recipient = recipient;
    Ok(())
}

/// The signer of a parameter setter is the parameter-update authority.
pub open spec fn update_signed(ctx: SetGlobalPool) -> bool {
    ctx.admin@ == ctx.global_pool.update_authority@
}

/// The signer of an authority rotation is the super-admin.
pub open spec fn super_signed(ctx: SetAuthority) -> bool {
    ctx.admin@ == ctx.global_pool.super_admin@
}

/// Sets the return-to-player ratio, which must stay below 100 percent.
pub fn set_rtp(ctx: &mut SetGlobalPool, new_rtp: u64) -> (r: Result<(), GameError>)
    ensures
        !update_signed(*old(ctx)) ==> r == Err::<(), GameError>(GameError::UnauthorizedUpdateAdmin),
        update_signed(*old(ctx)) && new_rtp >= 100 ==> r == Err::<(), GameError>(GameError::InvalidRtp),
        r is Err ==> *final(ctx) == *old(ctx),
        r is Ok <==> update_signed(*old(ctx)) && new_rtp < 100,
        r is Ok ==> *final(ctx) == (SetGlobalPool {
            global_pool: GlobalPool { rtp: new_rtp, ..old(ctx).global_pool },
            ..*old(ctx)
        }),
        old(ctx).global_pool.wf() ==> final(ctx).global_pool.wf(),
{
    if ctx.admin != ctx.global_pool.update_authority {
        return Err(GameError::UnauthorizedUpdateAdmin);
    }
    if new_rtp >= 100 {
        return Err(GameError::InvalidRtp);
    }
    ctx.global_pool.rtp = new_rtp;
    Ok(())
}

/// Sets the bound below which every net gain must stay.
pub fn set_max_win_amount(ctx: &mut SetGlobalPool, new_max_win_amount: u64) -> (r: Result<(), GameError>)
    ensures
        r is Ok <==> update_signed(*old(ctx)),
        r is Err ==> r == Err::<(), GameError>(GameError::UnauthorizedUpdateAdmin) && *final(ctx) == *old(ctx),
        r is Ok ==> *final(ctx) == (SetGlobalPool {
            global_pool: GlobalPool { max_win_amount: new_max_win_amount, ..old(ctx).global_pool },
            ..*old(ctx)
        }),
{
    if ctx.admin != ctx.global_pool.update_authority {
        return Err(GameError::UnauthorizedUpdateAdmin);
    }
    ctx.global_pool.max_win_amount = new_max_win_amount;
    Ok(())
}

/// Sets the bound that every wager must exceed.
pub fn set_min_bet_amount(ctx: &mut SetGlobalPool, new_min_bet_amount: u64) -> (r: Result<(), GameError>)
    ensures
        r is Ok <==> update_signed(*old(ctx)),
        r is Err ==> r == Err::<(), GameError>(GameError::UnauthorizedUpdateAdmin) && *final(ctx) == *old(ctx),
        r is Ok ==> *final(ctx) == (SetGlobalPool {
            global_pool: GlobalPool { min_bet_amount: new_min_bet_amount, ..old(ctx).global_pool },
            ..*old(ctx)
        }),
{
    if ctx.admin != ctx.global_pool.update_authority {
        return Err(GameError::UnauthorizedUpdateAdmin);
    }
    ctx.global_pool.min_bet_amount = new_min_bet_amount;
    Ok(())
}

/// Hands the operations role to a new key.
pub fn set_operation_authority(ctx: &mut SetAuthority, new_operation_authority: Address) -> (r: Result<(), GameError>)
    ensures
        r is Ok <==> super_signed(*old(ctx)),
        r is Err ==> r == Err::<(), GameError>(GameError::UnauthorizedSuperAdmin) && *final(ctx) == *old(ctx),
        r is Ok ==> *final(ctx) == (SetAuthority {
            global_pool: GlobalPool { operation_authority: new_operation_authority, ..old(ctx).global_pool },
            ..*old(ctx)
        }),
{
    if ctx.admin != ctx.global_pool.super_admin {
        return Err(GameError::UnauthorizedSuperAdmin);
    }
    ctx.global_pool.operation_authority = new_operation_authority;
    Ok(())
}

/// Hands the finance role to a new key.
pub fn set_finance_authority(ctx: &mut SetAuthority, new_finance_authority: Address) -> (r: Result<(), GameError>)
    ensures
        r is Ok <==> super_signed(*old(ctx)),
        r is Err ==> r == Err::<(), GameError>(GameError::UnauthorizedSuperAdmin) && *final(ctx) == *old(ctx),
        r is Ok ==> *final(ctx) == (SetAuthority {
            global_pool: GlobalPool { finance_authority: new_finance_authority, ..old(ctx).global_pool },
            ..*old(ctx)
        }),
{
    if ctx.admin != ctx.global_pool.super_admin {
        return Err(GameError::UnauthorizedSuperAdmin);
    }
    ctx.global_pool.finance_authority = new_finance_authority;
    Ok(())
}

/// Hands the parameter-update role to a new key.
pub fn set_update_authority(ctx: &mut SetAuthority, new_update_authority: Address) -> (r: Result<(), GameError>)
    ensures
        r is Ok <==> super_signed(*old(ctx)),
        r is Err ==> r == Err::<(), GameError>(GameError::UnauthorizedSuperAdmin) && *final(ctx) == *old(ctx),
        r is Ok ==> *final(ctx) == (SetAuthority {
            global_pool: GlobalPool { update_authority: new_update_authority, ..old(ctx).global_pool },
            ..*old(ctx)
        }),
{
    if ctx.admin != ctx.global_pool.super_admin {
        return Err(GameError::UnauthorizedSuperAdmin);
    }
    ctx.global_pool.update_authority = new_update_authority;
    Ok(())
}

/// A bet that is accepted opens a round that records the wager, the
/// threshold and the side exactly as submitted, for the signing player, in
/// the Active state.
pub proof fn lemma_play_game_records_bet(ctx: PlayGame, target_number: u8, is_under: bool, bet_amount: u64)
    requires
        ctx.total_lamports() <= u64::MAX,
        play_game_outcome(ctx, target_number, is_under, bet_amount).0 is Ok,
    ensures
        play_game_outcome(ctx, target_number, is_under, bet_amount).0 matches Ok(p) && p.status
            == GameStatus::Active && p.bet == bet_amount && p.target_num == target_number
            && p.is_under == is_under && p.player == ctx.owner.key,
        play_game_outcome(ctx, target_number, is_under, bet_amount).1.game_vault.lamports
            == ctx.game_vault.lamports + bet_amount,
{
}

/// A wager equal to the configured minimum is refused as too small; one unit
/// more is never refused for its size.
pub proof fn lemma_min_bet_is_exclusive(ctx: PlayGame, target_number: u8, is_under: bool)
    requires
        ctx.operator@ == ctx.global_authority.operation_authority@,
        ctx.global_authority.min_bet_amount < u64::MAX,
    ensures
        play_game_outcome(ctx, target_number, is_under, ctx.global_authority.min_bet_amount).0
            == Err::<PlayerPool, GameError>(GameError::InvalidBetAmount),
        play_game_outcome(
            ctx,
            target_number,
            is_under,
            (ctx.global_authority.min_bet_amount + 1) as u64,
        ).0 != Err::<PlayerPool, GameError>(GameError::InvalidBetAmount),
{
}

/// Once a round is settled, settling it again is refused whatever outcome is
/// reported, and the refusal leaves the record and every balance as they were.
pub proof fn lemma_settle_twice_rejected(ctx: SetResult, first_win: bool, second_win: bool)
    requires
        set_result_outcome(ctx, first_win).0 is Ok,
    ensures
        set_result_outcome(set_result_outcome(ctx, first_win).1, second_win) == (
            Err::<(), GameError>(GameError::RoundAlreadySettled),
            set_result_outcome(ctx, first_win).1,
        ),
{
}

/// Every settled round leaves its escrow empty. A lost round moves the whole
/// escrow into the vault. A won round raises the player's balance by exactly
/// the gross payout and the vault pays the rest, so the three balances keep
/// their sum.
pub proof fn lemma_settlement_balances(ctx: SetResult, is_win: bool)
    requires
        settle_balances_fit(ctx),
        set_result_outcome(ctx, is_win).0 is Ok,
    ensures
        set_result_outcome(ctx, is_win).1.game_vault.lamports == 0,
        set_result_outcome(ctx, is_win).1.game_vault.lamports
            + set_result_outcome(ctx, is_win).1.casino_vault.lamports
            + set_result_outcome(ctx, is_win).1.owner.lamports == ctx.game_vault.lamports
            + ctx.casino_vault.lamports + ctx.owner.lamports,
        !is_win ==> set_result_outcome(ctx, is_win).1.casino_vault.lamports
            == ctx.casino_vault.lamports + ctx.game_vault.lamports
            && set_result_outcome(ctx, is_win).1.owner == ctx.owner
            && set_result_outcome(ctx, is_win).1.player_pool.status == GameStatus::Lose,
        is_win ==> set_result_outcome(ctx, is_win).1.owner.lamports == ctx.owner.lamports
            + win_payout(ctx)
            && set_result_outcome(ctx, is_win).1.player_pool.status == GameStatus::Win,
{
}

/// Placement and settlement agree: when the ratio has not changed since a
/// bet was accepted, a win pays the player the gross payout, which exceeds
/// the wager by no more than the net gain that placement held below the
/// payout limit.
pub proof fn lemma_win_pays_validated_gain(
    play: PlayGame,
    target_number: u8,
    is_under: bool,
    bet_amount: u64,
    settle: SetResult,
)
    requires
        play.total_lamports() <= u64::MAX,
        play_game_outcome(play, target_number, is_under, bet_amount).0 == Ok::<PlayerPool, GameError>(
            settle.player_pool,
        ),
        settle.global_authority.rtp == play.global_authority.rtp,
        settle_balances_fit(settle),
        set_result_outcome(settle, true).0 is Ok,
    ensures
        set_result_outcome(settle, true).1.owner.lamports - settle.owner.lamports
            <= bet_amount + net_gain(bet_amount, target_number, is_under, play.global_authority.rtp),
        set_result_outcome(settle, true).1.owner.lamports - settle.owner.lamports
            == gross_payout(bet_amount, target_number, is_under, play.global_authority.rtp),
        net_gain(bet_amount, target_number, is_under, play.global_authority.rtp)
            < play.global_authority.max_win_amount,
{
    lemma_settlement_balances(settle, true);
}

} // verus!
