use dice::account::{
    Address, GameStatus, GlobalPool, Initialize, PlayGame, PlayerPool, SetAuthority,
    SetGlobalPool, SetResult, Wallet, Withdraw,
};
use dice::constants::{MAX_WIN_AMOUNT, MIN_BET_AMOUNT, RTP};
use dice::dice::{
    initialize, play_game, set_finance_authority, set_max_win_amount, set_min_bet_amount,
    set_operation_authority, set_result, set_rtp, set_update_authority, withdraw,
};
use dice::error::GameError;
use dice::payout::calculate_net_gain;
use dice::utils::{
    casino_vault_signer_seeds, game_vault_signer_seeds, puffed_out_string, resize_account,
    sol_transfer_user, sol_transfer_with_signer, u64_to_be_bytes,
};
use solana_program::pubkey::Pubkey;

const PROGRAM: [u8; 32] = [7u8; 32];
const SESSION: u64 = 42;

fn addr(n: u8) -> Address {
    Address::new([n; 32])
}

fn wallet(n: u8, lamports: u64) -> Wallet {
    Wallet { key: addr(n), lamports }
}

fn program_id() -> Address {
    Address::new(PROGRAM)
}

fn casino_pda() -> (Address, u8) {
    let (k, bump) =
        Pubkey::find_program_address(&[b"vault-authority"], &Pubkey::new_from_array(PROGRAM));
    (Address::new(k.to_bytes()), bump)
}

fn game_pda(owner: &Address, session: u64) -> (Address, u8) {
    let (k, bump) = Pubkey::find_program_address(
        &[&owner.bytes[..], b"vault-authority", &session.to_be_bytes()[..]],
        &Pubkey::new_from_array(PROGRAM),
    );
    (Address::new(k.to_bytes()), bump)
}

fn pool() -> GlobalPool {
    initialize(&Initialize { admin: addr(1) }, addr(2), addr(3), addr(4))
}

fn play_ctx(owner_lamports: u64, casino_lamports: u64) -> PlayGame {
    PlayGame {
        owner: wallet(10, owner_lamports),
        operator: addr(2),
        player_pool: wallet(11, 0),
        global_authority: pool(),
        casino_vault: Wallet { key: casino_pda().0, lamports: casino_lamports },
        game_vault: Wallet { key: game_pda(&addr(10), SESSION).0, lamports: 0 },
        rent_exempt_minimum: 890_880,
    }
}

fn settle_ctx(record: PlayerPool, escrow: u64, casino: u64) -> SetResult {
    let (casino_key, casino_bump) = casino_pda();
    let (game_key, game_bump) = game_pda(&addr(10), SESSION);
    SetResult {
        operator: addr(2),
        owner: wallet(10, 5_000),
        global_authority: pool(),
        player_pool: record,
        game_vault: Wallet { key: game_key, lamports: escrow },
        casino_vault: Wallet { key: casino_key, lamports: casino },
        program_id: program_id(),
        game_session_id: SESSION,
        game_vault_bump: game_bump,
        casino_vault_bump: casino_bump,
    }
}

fn active_record(bet: u64, target: u8, is_under: bool) -> PlayerPool {
    PlayerPool { bet, status: GameStatus::Active, is_under, target_num: target, player: addr(10) }
}

#[test]
fn initialize_sets_roles_and_defaults() {
    let g = pool();
    assert_eq!(g.super_admin, addr(1));
    assert_eq!(g.operation_authority, addr(2));
    assert_eq!(g.finance_authority, addr(3));
    assert_eq!(g.update_authority, addr(4));
    assert_eq!(g.rtp, RTP);
    assert_eq!(g.max_win_amount, MAX_WIN_AMOUNT);
    assert_eq!(g.min_bet_amount, MIN_BET_AMOUNT);
    assert_eq!(g.min_num, 6);
    assert_eq!(g.max_num, 96);
}

#[test]
fn payout_half_chance_under() {
    assert_eq!(calculate_net_gain(1_000_000, 50, true, 95), Ok(900_000));
}

#[test]
fn payout_half_chance_over() {
    assert_eq!(calculate_net_gain(1_000_000, 49, false, 95), Ok(900_000));
}

#[test]
fn payout_rounds_down() {
    // 1000 * 95 / 30 = 3166.67
    assert_eq!(calculate_net_gain(1000, 30, true, 95), Ok(2166));
}

#[test]
fn payout_below_wager_is_zero_gain() {
    // 1000 * 95 / 96 = 989, less than the wager
    assert_eq!(calculate_net_gain(1000, 96, true, 95), Ok(0));
}

#[test]
fn payout_is_deterministic() {
    let a = calculate_net_gain(123_456_789, 17, false, 93);
    let b = calculate_net_gain(123_456_789, 17, false, 93);
    assert_eq!(a, b);
    assert_eq!(a, Ok(123_456_789u128 * 93 / 82 - 123_456_789));
}

#[test]
fn payout_large_wager_does_not_overflow() {
    let r = calculate_net_gain(u64::MAX, 1, true, 99);
    assert_eq!(r, Ok(u64::MAX as u128 * 99 - u64::MAX as u128));
}

#[test]
fn payout_refuses_hopeless_targets() {
    assert_eq!(calculate_net_gain(1_000_000, 0, true, 95), Err(GameError::InvalidTargetNumber));
    assert_eq!(calculate_net_gain(1_000_000, 99, false, 95), Err(GameError::InvalidTargetNumber));
    assert_eq!(calculate_net_gain(1_000_000, 100, true, 95), Err(GameError::InvalidTargetNumber));
    assert_eq!(calculate_net_gain(1_000_000, 200, false, 95), Err(GameError::InvalidTargetNumber));
    assert_eq!(calculate_net_gain(1_000_000, 1, true, 95), Ok(94_000_000));
    assert_eq!(calculate_net_gain(1_000_000, 98, false, 95), Ok(94_000_000));
}

#[test]
fn place_bet_records_round() {
    let mut ctx = play_ctx(5_000_000_000, 50_000_000_000);
    let bet = 1_000_000_000;
    let r = play_game(&mut ctx, 50, true, bet).unwrap();
    assert_eq!(r.status, GameStatus::Active);
    assert_eq!(r.bet, bet);
    assert_eq!(r.target_num, 50);
    assert!(r.is_under);
    assert_eq!(r.player, addr(10));
    assert_eq!(ctx.game_vault.lamports, bet);
    assert_eq!(ctx.player_pool.lamports, 890_880);
    assert_eq!(ctx.owner.lamports, 5_000_000_000 - bet - 890_880);
    assert_eq!(ctx.casino_vault.lamports, 50_000_000_000);
}

#[test]
fn place_bet_min_bet_is_exclusive() {
    let mut ctx = play_ctx(5_000_000_000, 50_000_000_000);
    let before = ctx;
    assert_eq!(play_game(&mut ctx, 50, true, MIN_BET_AMOUNT).err(), Some(GameError::InvalidBetAmount));
    assert_eq!(ctx.owner.lamports, before.owner.lamports);
    assert!(play_game(&mut ctx, 50, true, MIN_BET_AMOUNT + 1).is_ok());
}

#[test]
fn place_bet_hopeless_target() {
    let mut ctx = play_ctx(5_000_000_000, 50_000_000_000);
    assert_eq!(play_game(&mut ctx, 0, true, 200_000_000).err(), Some(GameError::InvalidTargetNumber));
    assert_eq!(play_game(&mut ctx, 99, false, 200_000_000).err(), Some(GameError::InvalidTargetNumber));
    assert_eq!(ctx.game_vault.lamports, 0);
}

#[test]
fn place_bet_payout_limit() {
    let mut ctx = play_ctx(50_000_000_000, 500_000_000_000);
    // 1 SOL at a six percent chance gains about 14.8 SOL, over the 10 SOL limit
    assert_eq!(play_game(&mut ctx, 6, true, 1_000_000_000).err(), Some(GameError::InvalidBetAmountMaxWinAmountViolation));
}

#[test]
fn place_bet_threshold_bounds() {
    let mut ctx = play_ctx(5_000_000_000, 50_000_000_000);
    assert_eq!(play_game(&mut ctx, 5, true, 200_000_000).err(), Some(GameError::InvalidTargetNumber));
    assert_eq!(play_game(&mut ctx, 97, false, 200_000_000).err(), Some(GameError::InvalidTargetNumber));
    assert_eq!(ctx.game_vault.lamports, 0);
    assert!(play_game(&mut ctx, 96, true, 200_000_000).is_ok());
}

#[test]
fn place_bet_unauthorized_operator() {
    let mut ctx = play_ctx(5_000_000_000, 50_000_000_000);
    ctx.operator = addr(9);
    assert_eq!(play_game(&mut ctx, 50, true, 200_000_000).err(), Some(GameError::UnauthorizedOperator));
}

#[test]
fn place_bet_balance_errors() {
    let mut ctx = play_ctx(200_000_000, 50_000_000_000);
    assert_eq!(play_game(&mut ctx, 50, true, 200_000_000).err(), Some(GameError::InsufficientUserBalance));
    let mut ctx = play_ctx(5_000_000_000, 200_000_000);
    assert_eq!(play_game(&mut ctx, 50, true, 200_000_000).err(), Some(GameError::InsufficientCasinoVault));
    let mut ctx = play_ctx(200_000_001, 50_000_000_000);
    assert_eq!(play_game(&mut ctx, 50, true, 200_000_000).err(), Some(GameError::InsufficientBalance));
    assert_eq!(ctx.owner.lamports, 200_000_001);
    assert_eq!(ctx.player_pool.lamports, 0);
}

#[test]
fn settle_win_tops_up_escrow() {
    let mut ctx = settle_ctx(active_record(1_000_000, 50, true), 1_000_000, 10_000_000);
    assert_eq!(set_result(&mut ctx, true), Ok(()));
    // the vault tops the escrow up by 900,000, the escrow pays out 1,900,000
    assert_eq!(ctx.casino_vault.lamports, 10_000_000 - 900_000);
    assert_eq!(ctx.owner.lamports, 5_000 + 1_900_000);
    assert_eq!(ctx.game_vault.lamports, 0);
    assert_eq!(ctx.player_pool.status, GameStatus::Win);
}

#[test]
fn settle_win_escrow_covers_payout() {
    // 1000 * 95 / 96 = 989: the escrow of 995 covers it, the vault pays nothing
    let mut ctx = settle_ctx(active_record(1_000, 96, true), 995, 10_000);
    assert_eq!(set_result(&mut ctx, true), Ok(()));
    assert_eq!(ctx.owner.lamports, 5_000 + 989);
    assert_eq!(ctx.casino_vault.lamports, 10_000 + 6);
    assert_eq!(ctx.game_vault.lamports, 0);
}

#[test]
fn settle_loss_sweeps_escrow() {
    let mut ctx = settle_ctx(active_record(1_000_000, 50, true), 1_000_000, 10_000_000);
    assert_eq!(set_result(&mut ctx, false), Ok(()));
    assert_eq!(ctx.game_vault.lamports, 0);
    assert_eq!(ctx.casino_vault.lamports, 11_000_000);
    assert_eq!(ctx.owner.lamports, 5_000);
    assert_eq!(ctx.player_pool.status, GameStatus::Lose);
}

#[test]
fn settle_twice_is_refused() {
    for first in [true, false] {
        for second in [true, false] {
            let mut ctx = settle_ctx(active_record(1_000_000, 50, true), 1_000_000, 10_000_000);
            assert_eq!(set_result(&mut ctx, first), Ok(()));
            let status = ctx.player_pool.status;
            let escrow = ctx.game_vault.lamports;
            let vault = ctx.casino_vault.lamports;
            assert_eq!(set_result(&mut ctx, second), Err(GameError::RoundAlreadySettled));
            assert_eq!(ctx.player_pool.status, status);
            assert_eq!(ctx.game_vault.lamports, escrow);
            assert_eq!(ctx.casino_vault.lamports, vault);
        }
    }
}

#[test]
fn settle_other_player_refused() {
    let mut record = active_record(1_000_000, 50, true);
    record.player = addr(12);
    let mut ctx = settle_ctx(record, 1_000_000, 10_000_000);
    assert_eq!(set_result(&mut ctx, true), Err(GameError::NotOriginalPlayer));
}

#[test]
fn settle_unauthorized_operator() {
    let mut ctx = settle_ctx(active_record(1_000_000, 50, true), 1_000_000, 10_000_000);
    ctx.operator = addr(3);
    assert_eq!(set_result(&mut ctx, false), Err(GameError::UnauthorizedOperator));
    assert_eq!(ctx.player_pool.status, GameStatus::Active);
}

#[test]
fn settle_win_vault_too_small() {
    let mut ctx = settle_ctx(active_record(1_000_000, 50, true), 1_000_000, 899_999);
    assert_eq!(set_result(&mut ctx, true), Err(GameError::InsufficientBalance));
    assert_eq!(ctx.player_pool.status, GameStatus::Active);
    assert_eq!(ctx.casino_vault.lamports, 899_999);
}

#[test]
fn settle_wrong_bump_refused() {
    let mut ctx = settle_ctx(active_record(1_000_000, 50, true), 1_000_000, 10_000_000);
    ctx.game_vault_bump = ctx.game_vault_bump.wrapping_sub(1);
    ctx.casino_vault_bump = ctx.casino_vault_bump.wrapping_sub(1);
    assert_eq!(set_result(&mut ctx, false), Err(GameError::InvalidSignerSeeds));
    assert_eq!(set_result(&mut ctx, true), Err(GameError::InvalidSignerSeeds));
    assert_eq!(ctx.game_vault.lamports, 1_000_000);
}

#[test]
fn signed_transfer_needs_deriving_seeds() {
    let (key, bump) = casino_pda();
    let mut vault = Wallet { key, lamports: 100 };
    let mut to = wallet(20, 0);
    let seeds = casino_vault_signer_seeds(bump);
    assert_eq!(sol_transfer_with_signer(&mut vault, &mut to, &program_id(), &seeds, 40), Ok(()));
    assert_eq!(vault.lamports, 60);
    assert_eq!(to.lamports, 40);
    let mut plain = wallet(21, 100);
    assert_eq!(
        sol_transfer_with_signer(&mut plain, &mut to, &program_id(), &seeds, 40),
        Err(GameError::InvalidSignerSeeds)
    );
    assert_eq!(plain.lamports, 100);
    assert_eq!(
        sol_transfer_with_signer(&mut plain, &mut to, &program_id(), &seeds, 101),
        Err(GameError::InsufficientBalance)
    );
    assert_eq!(plain.lamports, 100);
}

#[test]
fn escrow_seeds_layout() {
    let seeds = game_vault_signer_seeds(&addr(10), SESSION, 254);
    assert_eq!(seeds.len(), 4);
    assert_eq!(seeds[0], vec![10u8; 32]);
    assert_eq!(seeds[1], b"vault-authority".to_vec());
    assert_eq!(seeds[2], SESSION.to_be_bytes().to_vec());
    assert_eq!(seeds[3], vec![254u8]);
    assert_eq!(u64_to_be_bytes(0x0102_0304_0506_0708), vec![1, 2, 3, 4, 5, 6, 7, 8]);
}

#[test]
fn user_transfer_moves_funds() {
    let mut a = wallet(1, 100);
    let mut b = wallet(2, 5);
    assert_eq!(sol_transfer_user(&mut a, &mut b, 100), Ok(()));
    assert_eq!((a.lamports, b.lamports), (0, 105));
    assert_eq!(sol_transfer_user(&mut a, &mut b, 1), Err(GameError::InsufficientBalance));
    assert_eq!((a.lamports, b.lamports), (0, 105));
}

#[test]
fn withdraw_from_vault() {
    let (key, bump) = casino_pda();
    let mut ctx = Withdraw {
        financial_admin: addr(3),
        recipient: wallet(30, 0),
        global_authority: pool(),
        casino_vault: Wallet { key, lamports: 1_000 },
        program_id: program_id(),
        casino_vault_bump: bump,
    };
    assert_eq!(withdraw(&mut ctx, 1_000), Err(GameError::InsufficientCasinoVault));
    assert_eq!(withdraw(&mut ctx, 999), Ok(()));
    assert_eq!(ctx.casino_vault.lamports, 1);
    assert_eq!(ctx.recipient.lamports, 999);
    ctx.financial_admin = addr(2);
    assert_eq!(withdraw(&mut ctx, 0), Err(GameError::UnauthorizedFinanceAdmin));
}

#[test]
fn parameter_setters() {
    let mut ctx = SetGlobalPool { admin: addr(4), global_pool: pool() };
    assert_eq!(set_rtp(&mut ctx, 100), Err(GameError::InvalidRtp));
    assert_eq!(ctx.global_pool.rtp, 95);
    assert_eq!(set_rtp(&mut ctx, 99), Ok(()));
    assert_eq!(ctx.global_pool.rtp, 99);
    assert_eq!(set_max_win_amount(&mut ctx, 7), Ok(()));
    assert_eq!(ctx.global_pool.max_win_amount, 7);
    assert_eq!(set_min_bet_amount(&mut ctx, 3), Ok(()));
    assert_eq!(ctx.global_pool.min_bet_amount, 3);
    ctx.admin = addr(1);
    assert_eq!(set_rtp(&mut ctx, 50), Err(GameError::UnauthorizedUpdateAdmin));
    assert_eq!(set_max_win_amount(&mut ctx, 8), Err(GameError::UnauthorizedUpdateAdmin));
    assert_eq!(set_min_bet_amount(&mut ctx, 8), Err(GameError::UnauthorizedUpdateAdmin));
    assert_eq!(ctx.global_pool.rtp, 99);
    assert_eq!(ctx.global_pool.max_win_amount, 7);
}

#[test]
fn rotation_needs_super_admin() {
    for signer in [2u8, 3, 4, 9] {
        let mut ctx = SetAuthority { admin: addr(signer), global_pool: pool() };
        assert_eq!(set_operation_authority(&mut ctx, addr(8)), Err(GameError::UnauthorizedSuperAdmin));
        assert_eq!(set_finance_authority(&mut ctx, addr(8)), Err(GameError::UnauthorizedSuperAdmin));
        assert_eq!(set_update_authority(&mut ctx, addr(8)), Err(GameError::UnauthorizedSuperAdmin));
        assert_eq!(ctx.global_pool.operation_authority, addr(2));
        assert_eq!(ctx.global_pool.finance_authority, addr(3));
        assert_eq!(ctx.global_pool.update_authority, addr(4));
    }
    let mut ctx = SetAuthority { admin: addr(1), global_pool: pool() };
    assert_eq!(set_operation_authority(&mut ctx, addr(8)), Ok(()));
    assert_eq!(set_finance_authority(&mut ctx, addr(9)), Ok(()));
    assert_eq!(set_update_authority(&mut ctx, addr(5)), Ok(()));
    assert_eq!(ctx.global_pool.operation_authority, addr(8));
    assert_eq!(ctx.global_pool.finance_authority, addr(9));
    assert_eq!(ctx.global_pool.update_authority, addr(5));
    assert_eq!(ctx.global_pool.super_admin, addr(1));
}

#[test]
fn resize_account_balances() {
    let mut acct = wallet(1, 100);
    let mut payer = wallet(2, 50);
    assert_eq!(resize_account(&mut acct, 130, &mut payer), Ok(()));
    assert_eq!((acct.lamports, payer.lamports), (130, 20));
    assert_eq!(resize_account(&mut acct, 60, &mut payer), Ok(()));
    assert_eq!((acct.lamports, payer.lamports), (60, 90));
    assert_eq!(resize_account(&mut acct, 200, &mut payer), Err(GameError::InsufficientBalance));
    assert_eq!((acct.lamports, payer.lamports), (60, 90));
}

#[test]
fn puffed_out_string_pads_with_nul() {
    let s = String::from("abc");
    assert_eq!(puffed_out_string(&s, 6), "abc\0\0\0");
    assert_eq!(puffed_out_string(&s, 3), "abc");
}

#[test]
fn error_messages() {
    assert_eq!(GameError::InvalidRtp.message(), "Invalid RTP");
    assert_eq!(GameError::InvalidTargetNumber.message(), "Invalid Target Number");
}
