//! Rules for bet slips and for single bets of the older format.
use vstd::prelude::*;
use crate::model::{
    BetData, BetKind, Betslip, MatchResult, SingleBet, MAX_BET, MAX_LEGS, MIN_BET, TEAM_COUNT,
};
use crate::matches::odds_in_range;
use crate::payout::chained_odds;

verus! {

/// A leg with a real prediction and odds in range.
pub open spec fn valid_leg(leg: SingleBet) -> bool {
    leg.prediction != MatchResult::Pending && odds_in_range(leg.odds)
}

/// The shape each kind of slip demands.
pub open spec fn kind_shape_ok(slip: Betslip) -> bool {
    let n = slip.bets@.len();
    match slip.kind {
        BetKind::Single => n == 1 && slip.stake_per_bet == slip.total_stake,
        BetKind::Parlay => n >= 2 && slip.potential_payout > slip.total_stake && chained_odds(
            slip.bets@,
            false,
        ) > 10000,
        BetKind::SystemBet => n >= 2 && slip.stake_per_bet * n <= slip.total_stake,
    }
}

/// A slip as placed: unsettled with nothing paid, a stake of at least the
/// minimum, one to `MAX_LEGS` valid legs in the shape of its kind, and badges
/// of roster clubs.
pub open spec fn valid_new_slip(slip: Betslip) -> bool {
    &&& !slip.settled
    &&& slip.payout_amount == 0
    &&& slip.total_stake >= MIN_BET
    &&& 1 <= slip.bets@.len() <= MAX_LEGS
    &&& kind_shape_ok(slip)
    &&& forall|i: int| 0 <= i < slip.bets@.len() ==> valid_leg(#[trigger] slip.bets@[i])
    &&& forall|i: int| 0 <= i < slip.badge_ids@.len() ==> #[trigger] slip.badge_ids@[i] < TEAM_COUNT
}

/// A slip as settled: marked settled and paying at most twice its potential
/// payout.
pub open spec fn valid_settled_slip(slip: Betslip) -> bool {
    slip.settled && slip.payout_amount <= 2 * slip.potential_payout
}

pub open spec fn slip_placement_ok(slips: Seq<Betslip>) -> bool {
    forall|i: int| 0 <= i < slips.len() ==> valid_new_slip(#[trigger] slips[i])
}

pub open spec fn slip_settlement_ok(old: Seq<Betslip>, new: Seq<Betslip>) -> bool {
    &&& forall|i: int| 0 <= i < old.len() ==> !(#[trigger] old[i]).settled
    &&& forall|i: int| 0 <= i < new.len() ==> valid_settled_slip(#[trigger] new[i])
}

/// Slips of a transition: placement when only new slips are present,
/// settlement when slips are consumed.
pub open spec fn slip_transition_ok(old: Seq<Betslip>, new: Seq<Betslip>) -> bool {
    if old.len() == 0 {
        slip_placement_ok(new)
    } else {
        slip_settlement_ok(old, new)
    }
}

/// A legacy bet as placed.
pub open spec fn valid_new_bet(bet: BetData) -> bool {
    &&& !bet.settled
    &&& MIN_BET <= bet.stake <= MAX_BET
    &&& bet.prediction != MatchResult::Pending
}

pub open spec fn bet_placement_ok(bets: Seq<BetData>) -> bool {
    forall|i: int| 0 <= i < bets.len() ==> valid_new_bet(#[trigger] bets[i])
}

pub open spec fn bet_settlement_ok(old: Seq<BetData>) -> bool {
    forall|i: int| 0 <= i < old.len() ==> !(#[trigger] old[i]).settled
}

/// Legacy bets of a transition: placement when only new bets are present,
/// settlement of unsettled bets when bets are consumed.
pub open spec fn bet_transition_ok(old: Seq<BetData>, new: Seq<BetData>) -> bool {
    if old.len() == 0 {
        bet_placement_ok(new)
    } else {
        bet_settlement_ok(old)
    }
}

fn check_legs(legs: &Vec<SingleBet>) -> (r: bool)
    ensures
        r == forall|i: int| 0 <= i < legs@.len() ==> valid_leg(#[trigger] legs@[i]),
{
    let mut i: usize = 0;
    while i < legs.len()
        invariant
            0 <= i <= legs@.len(),
            forall|k: int| 0 <= k < i ==> valid_leg(#[trigger] legs@[k]),
        decreases legs@.len() - i,
    {
        let leg = &legs[i];
        if leg.prediction == MatchResult::Pending || leg.odds < 10000 || leg.odds > 100000 {
            assert(!valid_leg(legs@[i as int]));
            return false;
        }
        i = i + 1;
    }
    true
}

fn check_badge_ids(ids: &Vec<u8>) -> (r: bool)
    ensures
        r == forall|i: int| 0 <= i < ids@.len() ==> #[trigger] ids@[i] < TEAM_COUNT,
{
    let mut i: usize = 0;
    while i < ids.len()
        invariant
            0 <= i <= ids@.len(),
            forall|k: int| 0 <= k < i ==> #[trigger] ids@[k] < TEAM_COUNT,
        decreases ids@.len() - i,
    {
        if ids[i] as usize >= TEAM_COUNT {
            return false;
        }
        i = i + 1;
    }
    true
}

fn check_kind_shape(slip: &Betslip) -> (r: bool)
    ensures
        r == kind_shape_ok(*slip),
{
    let n = slip.bets.len();
    match slip.kind {
        BetKind::Single => n == 1 && slip.stake_per_bet == slip.total_stake,
        BetKind::Parlay => {
            if n < 2 || slip.potential_payout <= slip.total_stake {
                return false;
            }
            crate::payout::combined_odds(&slip.bets) > 10000
        },
        BetKind::SystemBet => {
            let a = slip.stake_per_bet as u128;
            let b = n as u128;
            assert(a * b <= u64::MAX * u64::MAX) by (nonlinear_arith)
                requires
                    a <= u64::MAX,
                    b <= u64::MAX,
            ;
            n >= 2 && (slip.stake_per_bet as u128) * (n as u128) <= slip.total_stake as u128
        },
    }
}

fn check_new_slip(slip: &Betslip) -> (r: bool)
    ensures
        r == valid_new_slip(*slip),
{
    !slip.settled && slip.payout_amount == 0 && slip.total_stake >= MIN_BET && 1 <= slip.bets.len()
        && slip.bets.len() <= MAX_LEGS && check_kind_shape(slip) && check_legs(&slip.bets)
        && check_badge_ids(&slip.badge_ids)
}

/// Accepts newly placed slips when every one is well formed.
pub fn validate_slip_placement(slips: &Vec<Betslip>) -> (r: bool)
    ensures
        r == slip_placement_ok(slips@),
{
    let mut i: usize = 0;
    while i < slips.len()
        invariant
            0 <= i <= slips@.len(),
            forall|k: int| 0 <= k < i ==> valid_new_slip(#[trigger] slips@[k]),
        decreases slips@.len() - i,
    {
        if !check_new_slip(&slips[i]) {
            return false;
        }
        i = i + 1;
    }
    true
}

/// Accepts the settlement of slips: every consumed slip was open, and every
/// slip produced is settled with a payout of at most twice its potential
/// payout. The payout is not recomputed from match results here.
pub fn validate_slip_settlement(old: &Vec<Betslip>, new: &Vec<Betslip>) -> (r: bool)
    ensures
        r == slip_settlement_ok(old@, new@),
{
    let mut i: usize = 0;
    while i < old.len()
        invariant
            0 <= i <= old@.len(),
            forall|k: int| 0 <= k < i ==> !(#[trigger] old@[k]).settled,
        decreases old@.len() - i,
    {
        if old[i].settled {
            return false;
        }
        i = i + 1;
    }
    let mut j: usize = 0;
    while j < new.len()
        invariant
            0 <= j <= new@.len(),
            forall|k: int| 0 <= k < old@.len() ==> !(#[trigger] old@[k]).settled,
            forall|k: int| 0 <= k < j ==> valid_settled_slip(#[trigger] new@[k]),
        decreases new@.len() - j,
    {
        let slip = &new[j];
        if !slip.settled || slip.payout_amount as u128 > 2 * (slip.potential_payout as u128) {
            return false;
        }
        j = j + 1;
    }
    true
}

/// Decides the bet slips of a transition.
pub fn validate_slips(old: &Vec<Betslip>, new: &Vec<Betslip>) -> (r: bool)
    ensures
        r == slip_transition_ok(old@, new@),
{
    if old.len() == 0 {
        validate_slip_placement(new)
    } else {
        validate_slip_settlement(old, new)
    }
}

/// Accepts newly placed legacy bets.
pub fn validate_bet_placement(bets: &Vec<BetData>) -> (r: bool)
    ensures
        r == bet_placement_ok(bets@),
{
    let mut i: usize = 0;
    while i < bets.len()
        invariant
            0 <= i <= bets@.len(),
            forall|k: int| 0 <= k < i ==> valid_new_bet(#[trigger] bets@[k]),
        decreases bets@.len() - i,
    {
        let bet = &bets[i];
        if bet.settled || bet.stake < MIN_BET || bet.stake > MAX_BET || bet.prediction
            == MatchResult::Pending {
            return false;
        }
        i = i + 1;
    }
    true
}

/// Accepts the settlement of legacy bets that were still open.
pub fn validate_bet_settlement(old: &Vec<BetData>) -> (r: bool)
    ensures
        r == bet_settlement_ok(old@),
{
    let mut i: usize = 0;
    while i < old.len()
        invariant
            0 <= i <= old@.len(),
            forall|k: int| 0 <= k < i ==> !(#[trigger] old@[k]).settled,
        decreases old@.len() - i,
    {
        if old[i].settled {
            return false;
        }
        i = i + 1;
    }
    true
}

/// Decides the legacy bets of a transition.
pub fn validate_bets(old: &Vec<BetData>, new: &Vec<BetData>) -> (r: bool)
    ensures
        r == bet_transition_ok(old@, new@),
{
    if old.len() == 0 {
        validate_bet_placement(new)
    } else {
        validate_bet_settlement(old)
    }
}

} // verus!
