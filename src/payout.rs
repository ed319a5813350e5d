use vstd::prelude::*;
use crate::error::GameError;

verus! {

/// The chance of winning, in percent: the threshold when betting under it,
/// its distance to 99 when betting over it.
pub open spec fn win_chance(target_number: u8, is_under: bool) -> int {
    if is_under {
        target_number as int
    } else {
        99 - target_number as int
    }
}

/// A bet can be both won and lost.
pub open spec fn valid_target(target_number: u8, is_under: bool) -> bool {
    0 < win_chance(target_number, is_under) < 100
}

/// The full payout of a won bet: the wager times `rtp / win_chance`, rounded down.
pub open spec fn gross_payout(bet_amount: u64, target_number: u8, is_under: bool, rtp: u64) -> int
    recommends
        valid_target(target_number, is_under),
{
    (bet_amount as int * rtp as int) / win_chance(target_number, is_under)
}

/// What a won bet earns beyond the wager; zero where the payout does not exceed it.
pub open spec fn net_gain(bet_amount: u64, target_number: u8, is_under: bool, rtp: u64) -> int
    recommends
        valid_target(target_number, is_under),
{
    let gross = gross_payout(bet_amount, target_number, is_under, rtp);
    if gross > bet_amount as int {
        gross - bet_amount as int
    } else {
        0
    }
}

/// What `calculate_net_gain` returns on the given inputs.
pub open spec fn net_gain_result(bet_amount: u64, target_number: u8, is_under: bool, rtp: u64) -> Result<u128, GameError> {
    if valid_target(target_number, is_under) {
        Ok(net_gain(bet_amount, target_number, is_under, rtp) as u128)
    } else {
        Err(GameError::InvalidTargetNumber)
    }
}

/// What `calculate_gross_payout` returns on the given inputs.
pub open spec fn gross_payout_result(bet_amount: u64, target_number: u8, is_under: bool, rtp: u64) -> Result<u128, GameError> {
    if valid_target(target_number, is_under) {
        Ok(gross_payout(bet_amount, target_number, is_under, rtp) as u128)
    } else {
        Err(GameError::InvalidTargetNumber)
    }
}

/// The full payout of a won bet, which settlement hands to the player.
pub fn calculate_gross_payout(bet_amount: u64, target_number: u8, is_under: bool, rtp: u64) -> (r: Result<u128, GameError>)
    ensures
        r == gross_payout_result(bet_amount, target_number, is_under, rtp),
        r is Ok ==> 0 <= gross_payout(bet_amount, target_number, is_under, rtp)
            <= bet_amount as int * rtp as int,
        r is Ok ==> gross_payout(bet_amount, target_number, is_under, rtp) + bet_amount <= u128::MAX,
{
    let chance: u128 = if is_under {
        target_number as u128
    } else if target_number <= 99 {
        99 - target_number as u128
    } else {
        0
    };
    if chance == 0 || chance >= 100 {
        return Err(GameError::InvalidTargetNumber);
    }
    let bet = bet_amount as u128;
    let ratio = rtp as u128;
    proof {
        assert(bet * ratio <= 0xffff_ffff_ffff_ffffu128 * 0xffff_ffff_ffff_ffffu128) by (nonlinear_arith)
            requires
                bet <= u64::MAX,
                ratio <= u64::MAX,
        ;
    }
    let gross = bet * ratio / chance;
    proof {
        assert(0 <= gross as int <= bet as int * ratio as int) by (nonlinear_arith)
            requires
                gross as int == (bet as int * ratio as int) / (chance as int),
                chance >= 1,
        ;
    }
    assert(gross as int + bet as int <= u128::MAX);
    Ok(gross)
}

/// The payout calculator, used when a bet is placed: the gain over the
/// wager, held against the payout limit.
pub fn calculate_net_gain(bet_amount: u64, target_number: u8, is_under: bool, rtp: u64) -> (r: Result<u128, GameError>)
    ensures
        r == net_gain_result(bet_amount, target_number, is_under, rtp),
        r is Ok ==> 0 <= net_gain(bet_amount, target_number, is_under, rtp)
            && net_gain(bet_amount, target_number, is_under, rtp) + bet_amount <= u128::MAX,
{
    let gross = match calculate_gross_payout(bet_amount, target_number, is_under, rtp) {
        Ok(g) => g,
        Err(e) => {
            return Err(e);
        },
    };
    let bet = bet_amount as u128;
    if gross > bet {
        Ok(gross - bet)
    } else {
        Ok(0)
    }
}

/// The payout calculator is a function of its inputs: any two results that
/// it may return for the same bet, threshold, side and ratio are equal.
pub proof fn lemma_net_gain_deterministic(
    bet_amount: u64,
    target_number: u8,
    is_under: bool,
    rtp: u64,
    first: Result<u128, GameError>,
    second: Result<u128, GameError>,
)
    requires
        first == net_gain_result(bet_amount, target_number, is_under, rtp),
        second == net_gain_result(bet_amount, target_number, is_under, rtp),
    ensures
        first == second,
        valid_target(target_number, is_under) ==> first is Ok,
{
}

/// No bet under a threshold of 0, and no bet over a threshold of 99, can be
/// won: the calculator refuses both.
pub proof fn lemma_hopeless_targets_refused(bet_amount: u64, rtp: u64)
    ensures
        net_gain_result(bet_amount, 0, true, rtp) == Err::<u128, GameError>(GameError::InvalidTargetNumber),
        net_gain_result(bet_amount, 99, false, rtp) == Err::<u128, GameError>(GameError::InvalidTargetNumber),
{
}

} // verus!
