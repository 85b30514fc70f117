//! Odds and payout arithmetic. Every product saturates at `u64::MAX`, so no
//! input can make a computation overflow.
use vstd::prelude::*;
use crate::model::{
    BetAllocation, BetKind, Betslip, LockedOdds, MatchResult, SingleBet, BADGE_BONUS_BPS,
    HOUSE_EDGE_BPS,
};

verus! {

/// Lowest odds of the compressed band (1.25x).
pub const COMPRESSED_MIN: u64 = 12500;

/// Highest odds of the compressed band (1.95x).
pub const COMPRESSED_MAX: u64 = 19500;

/// Raw odds at or below which the band minimum applies.
pub const RAW_ODDS_FLOOR: u64 = 18000;

/// Raw odds at or above which the band maximum applies.
pub const RAW_ODDS_CEILING: u64 = 55000;

/// Cap on the parlay multiplier, in basis points.
pub const MAX_PARLAY_MULTIPLIER: u64 = 12500;

/// `x` capped at `u64::MAX`.
pub open spec fn sat(x: int) -> int {
    if x > u64::MAX {
        u64::MAX as int
    } else {
        x
    }
}

fn sat_mul(a: u64, b: u64) -> (r: u64)
    ensures
        r == sat(a * b),
{
    match a.checked_mul(b) {
        Some(v) => v,
        None => u64::MAX,
    }
}

fn sat_add(a: u64, b: u64) -> (r: u64)
    ensures
        r == sat(a + b),
{
    match a.checked_add(b) {
        Some(v) => v,
        None => u64::MAX,
    }
}

/// Raw parimutuel odds squeezed into the band `[COMPRESSED_MIN, COMPRESSED_MAX]`.
pub open spec fn compressed(raw: int) -> int {
    if raw <= RAW_ODDS_FLOOR {
        COMPRESSED_MIN as int
    } else if raw >= RAW_ODDS_CEILING {
        COMPRESSED_MAX as int
    } else {
        COMPRESSED_MIN + (raw - RAW_ODDS_FLOOR) * (COMPRESSED_MAX - COMPRESSED_MIN) / (
        RAW_ODDS_CEILING - RAW_ODDS_FLOOR)
    }
}

/// Clamps raw odds into the safe band, interpolating linearly between the raw
/// floor and ceiling (truncating).
pub fn compress_odds(raw: u64) -> (r: u64)
    ensures
        r == compressed(raw as int),
{
    if raw <= RAW_ODDS_FLOOR {
        COMPRESSED_MIN
    } else if raw >= RAW_ODDS_CEILING {
        COMPRESSED_MAX
    } else {
        assert((raw - 18000) * 7000 < 37000 * 7000) by (nonlinear_arith)
            requires
                18000 < raw < 55000,
        ;
        let offset = (raw - RAW_ODDS_FLOOR) * (COMPRESSED_MAX - COMPRESSED_MIN);
        assert(offset / 37000 <= 7000) by (nonlinear_arith)
            requires
                offset < 37000 * 7000,
        ;
        COMPRESSED_MIN + offset / (RAW_ODDS_CEILING - RAW_ODDS_FLOOR)
    }
}

/// Compressed odds always lie in the band, and raising the raw odds never
/// lowers them.
pub proof fn lemma_compressed_in_band_and_monotonic(a: int, b: int)
    requires
        0 <= a <= b,
    ensures
        COMPRESSED_MIN <= compressed(a) <= COMPRESSED_MAX,
        compressed(a) <= compressed(b),
{
    if RAW_ODDS_FLOOR < a < RAW_ODDS_CEILING {
        assert(0 <= (a - 18000) * 7000 / 37000 <= 7000) by (nonlinear_arith)
            requires
                18000 < a < 55000,
        ;
    }
    if RAW_ODDS_FLOOR < b < RAW_ODDS_CEILING {
        assert(0 <= (b - 18000) * 7000 / 37000 <= 7000) by (nonlinear_arith)
            requires
                18000 < b < 55000,
        ;
    }
    if RAW_ODDS_FLOOR < a && b < RAW_ODDS_CEILING {
        assert((a - 18000) * 7000 / 37000 <= (b - 18000) * 7000 / 37000) by (nonlinear_arith)
            requires
                18000 < a <= b,
        ;
    }
}

/// Parimutuel odds of an outcome: the whole pool over the outcome's share.
pub open spec fn raw_odds(total: int, seed: int) -> int {
    total * 10000 / seed
}

fn raw_odds_capped(total: u128, seed: u64) -> (r: u64)
    requires
        seed > 0,
        total <= 3 * (u64::MAX as int),
    ensures
        r == sat(raw_odds(total as int, seed as int)),
{
    let raw = total * 10000 / (seed as u128);
    if raw > u64::MAX as u128 {
        u64::MAX
    } else {
        raw as u64
    }
}

/// Locks the three odds of a match from the seed stake on each outcome;
/// `None` when a seed is zero.
pub fn lock_odds(home_seed: u64, away_seed: u64, draw_seed: u64) -> (r: Option<LockedOdds>)
    ensures
        r is None <==> (home_seed == 0 || away_seed == 0 || draw_seed == 0),
        r matches Some(o) ==> {
            let total = home_seed + away_seed + draw_seed;
            &&& o.home == compressed(raw_odds(total, home_seed as int))
            &&& o.away == compressed(raw_odds(total, away_seed as int))
            &&& o.draw == compressed(raw_odds(total, draw_seed as int))
            &&& o.locked
        },
{
    if home_seed == 0 || away_seed == 0 || draw_seed == 0 {
        return None;
    }
    let total: u128 = home_seed as u128 + away_seed as u128 + draw_seed as u128;
    let home = compress_odds(raw_odds_capped(total, home_seed));
    let away = compress_odds(raw_odds_capped(total, away_seed));
    let draw = compress_odds(raw_odds_capped(total, draw_seed));
    Some(LockedOdds { home, away, draw, locked: true })
}

/// Parlay multiplier for a slip of `n` legs, in basis points.
pub open spec fn parlay_mult(n: int) -> int {
    if n <= 1 {
        10000
    } else if n == 2 {
        10500
    } else if n == 3 {
        11000
    } else if n == 4 {
        11300
    } else if n == 5 {
        11600
    } else if n == 6 {
        11900
    } else if n == 7 {
        12100
    } else if n == 8 {
        12300
    } else if n == 9 {
        12400
    } else {
        MAX_PARLAY_MULTIPLIER as int
    }
}

/// Multiplier granted to a parlay of `leg_count` legs, never above the cap.
pub fn parlay_multiplier(leg_count: usize) -> (r: u64)
    ensures
        r == parlay_mult(leg_count as int),
{
    let table: u64 = if leg_count <= 1 {
        10000
    } else if leg_count == 2 {
        10500
    } else if leg_count == 3 {
        11000
    } else if leg_count == 4 {
        11300
    } else if leg_count == 5 {
        11600
    } else if leg_count == 6 {
        11900
    } else if leg_count == 7 {
        12100
    } else if leg_count == 8 {
        12300
    } else if leg_count == 9 {
        12400
    } else {
        MAX_PARLAY_MULTIPLIER
    };
    if table > MAX_PARLAY_MULTIPLIER {
        MAX_PARLAY_MULTIPLIER
    } else {
        table
    }
}

/// The parlay multiplier never exceeds its cap, grows strictly from one to
/// nine legs, and stays at the cap from ten legs on.
pub proof fn lemma_parlay_multiplier_shape(n: int)
    requires
        n >= 1,
    ensures
        parlay_mult(n) <= MAX_PARLAY_MULTIPLIER,
        n < 9 ==> parlay_mult(n) < parlay_mult(n + 1),
        n >= 10 ==> parlay_mult(n) == MAX_PARLAY_MULTIPLIER,
{
}

/// Odds raised by a badge bonus of `bonus` basis points.
pub open spec fn boosted(odds: int, bonus: int) -> int {
    sat(odds + sat(odds * bonus) / 10000)
}

/// Odds after the house edge is taken.
pub open spec fn after_edge(odds: int) -> int {
    odds - sat(odds * HOUSE_EDGE_BPS) / 10000
}

/// Payout of a winning single bet.
pub open spec fn payout_of(stake: int, odds: int, has_badge: bool, bonus_bps: int) -> int {
    let raised = if has_badge {
        boosted(odds, bonus_bps)
    } else {
        odds
    };
    sat(stake * after_edge(raised)) / 10000
}

fn boost_odds(odds: u64, bonus_bps: u64) -> (r: u64)
    ensures
        r == boosted(odds as int, bonus_bps as int),
{
    sat_add(odds, sat_mul(odds, bonus_bps) / 10000)
}

fn apply_house_edge(odds: u64) -> (r: u64)
    ensures
        r == after_edge(odds as int),
        r <= odds,
{
    let cut = sat_mul(odds, HOUSE_EDGE_BPS) / 10000;
    assert(sat(odds * 400) / 10000 <= odds) by (nonlinear_arith)
        requires
            sat(odds * 400) <= odds * 400,
            odds >= 0,
    ;
    odds - cut
}

/// Payout of a winning single bet: the badge bonus raises the odds when the
/// bettor holds a badge, the house edge is taken from the result, and the
/// stake is paid at those odds.
pub fn calculate_payout(stake: u64, odds: u64, has_badge: bool, bonus_bps: u64) -> (r: u64)
    ensures
        r == payout_of(stake as int, odds as int, has_badge, bonus_bps as int),
{
    let mut final_odds = odds;
    if has_badge {
        final_odds = boost_odds(final_odds, bonus_bps);
    }
    final_odds = apply_house_edge(final_odds);
    sat_mul(stake, final_odds) / 10000
}

/// Payout of a winning single bet with the standard badge bonus.
pub fn single_bet_payout(stake: u64, odds: u64, has_badge: bool) -> (r: u64)
    ensures
        r == payout_of(stake as int, odds as int, has_badge, BADGE_BONUS_BPS as int),
{
    calculate_payout(stake, odds, has_badge, BADGE_BONUS_BPS)
}

/// Odds of a leg of a multi-leg slip.
pub open spec fn leg_odds(odds: int, has_badge: bool) -> int {
    if has_badge {
        boosted(odds, BADGE_BONUS_BPS as int)
    } else {
        odds
    }
}

/// Odds of the legs multiplied together, dividing by 10000 at each step.
pub open spec fn chained_odds(legs: Seq<SingleBet>, has_badge: bool) -> int
    decreases legs.len(),
{
    if legs.len() == 0 {
        10000
    } else {
        sat(chained_odds(legs.drop_last(), has_badge) * leg_odds(legs.last().odds as int, has_badge))
            / 10000
    }
}

fn chain_odds(legs: &Vec<SingleBet>, has_badge: bool) -> (r: u64)
    ensures
        r == chained_odds(legs@, has_badge),
{
    let mut acc: u64 = 10000;
    let mut i: usize = 0;
    while i < legs.len()
        invariant
            0 <= i <= legs@.len(),
            acc == chained_odds(legs@.take(i as int), has_badge),
        decreases legs@.len() - i,
    {
        let odds = if has_badge {
            boost_odds(legs[i].odds, BADGE_BONUS_BPS)
        } else {
            legs[i].odds
        };
        assert(legs@.take(i + 1).drop_last() == legs@.take(i as int));
        acc = sat_mul(acc, odds) / 10000;
        i = i + 1;
    }
    assert(legs@.take(legs@.len() as int) == legs@);
    acc
}

proof fn lemma_chained_odds_nonnegative(legs: Seq<SingleBet>, has_badge: bool)
    ensures
        chained_odds(legs, has_badge) >= 0,
    decreases legs.len(),
{
    if legs.len() > 0 {
        lemma_chained_odds_nonnegative(legs.drop_last(), has_badge);
        let p = chained_odds(legs.drop_last(), has_badge);
        let o = leg_odds(legs.last().odds as int, has_badge);
        assert(p * o >= 0) by (nonlinear_arith)
            requires
                p >= 0,
                o >= 0,
        ;
    }
}

/// Odds of the legs multiplied together, without badge bonus.
pub fn combined_odds(legs: &Vec<SingleBet>) -> (r: u64)
    ensures
        r == chained_odds(legs@, false),
{
    chain_odds(legs, false)
}

/// Payout of a winning parlay.
pub open spec fn parlay_payout_of(stake: int, legs: Seq<SingleBet>, has_badge: bool) -> int {
    sat(stake * after_edge(chained_odds(legs, has_badge))) / 10000
}

/// Payout of a parlay whose legs all won: the leg odds are chained (each
/// raised by the badge bonus when the bettor holds any badge), the house edge
/// is taken once from the combined odds, and the stake is paid at them.
pub fn parlay_payout(stake: u64, legs: &Vec<SingleBet>, badges: &Vec<u8>) -> (r: u64)
    ensures
        r == parlay_payout_of(stake as int, legs@, badges@.len() > 0),
{
    let combined = chain_odds(legs, badges.len() > 0);
    let net = apply_house_edge(combined);
    sat_mul(stake, net) / 10000
}

/// Every leg carries positive odds.
pub open spec fn odds_positive(legs: Seq<SingleBet>) -> bool {
    forall|i: int| 0 <= i < legs.len() ==> #[trigger] legs[i].odds > 0
}

/// Payout a multi-leg slip aims at: the stake at the chained odds, scaled by
/// the parlay multiplier.
pub open spec fn target_payout(total_stake: int, legs: Seq<SingleBet>, multiplier: int) -> int {
    sat(sat(total_stake * chained_odds(legs, false)) * multiplier) / 100000000
}

/// Share of the target payout each leg must contribute. The remainder of the
/// division is dropped, so the legs together fund slightly less than the
/// target.
pub open spec fn per_leg_contribution(
    total_stake: int,
    legs: Seq<SingleBet>,
    multiplier: int,
) -> int {
    target_payout(total_stake, legs, multiplier) / legs.len() as int
}

/// Stake that makes a leg at `odds` contribute `contribution`.
pub open spec fn allocation_for(contribution: int, odds: int) -> int {
    sat(contribution * 10000) / odds
}

/// Splits the stake of a multi-leg slip over its legs so that each leg, when
/// it wins, contributes the same amount towards the target payout.
pub fn weighted_allocations(total_stake: u64, legs: &Vec<SingleBet>, multiplier: u64) -> (r: Vec<
    BetAllocation,
>)
    requires
        legs@.len() > 0,
        odds_positive(legs@),
    ensures
        r@.len() == legs@.len(),
        forall|i: int|
            0 <= i < legs@.len() ==> {
                &&& (#[trigger] r@[i]).match_id@ == legs@[i].match_id@
                &&& r@[i].stake == allocation_for(
                    per_leg_contribution(total_stake as int, legs@, multiplier as int),
                    legs@[i].odds as int,
                )
            },
{
    let combined = chain_odds(legs, false);
    let target = sat_mul(sat_mul(total_stake, combined), multiplier) / 100000000;
    let per_leg = target / (legs.len() as u64);
    let scaled = sat_mul(per_leg, 10000);
    let mut out: Vec<BetAllocation> = Vec::new();
    let mut i: usize = 0;
    while i < legs.len()
        invariant
            0 <= i <= legs@.len(),
            out@.len() == i,
            per_leg == per_leg_contribution(total_stake as int, legs@, multiplier as int),
            scaled == sat(per_leg * 10000),
            odds_positive(legs@),
            forall|k: int|
                0 <= k < i ==> {
                    &&& (#[trigger] out@[k]).match_id@ == legs@[k].match_id@
                    &&& out@[k].stake == allocation_for(per_leg as int, legs@[k].odds as int)
                },
        decreases legs@.len() - i,
    {
        let leg = &legs[i];
        assert(legs@[i as int].odds > 0);
        let stake = scaled / leg.odds;
        out.push(BetAllocation { match_id: leg.match_id.clone(), stake });
        i = i + 1;
    }
    out
}

proof fn lemma_allocation_bounds(c: int, o: int)
    requires
        o > 0,
        0 <= c * 10000 <= u64::MAX,
    ensures
        c * 10000 - o < allocation_for(c, o) * o,
        allocation_for(c, o) * o <= c * 10000,
{
    let t = c * 10000;
    assert(allocation_for(c, o) == t / o);
    assert(o * (t / o) <= t && t - o < o * (t / o)) by (nonlinear_arith)
        requires
            o > 0,
            t >= 0,
    {
        vstd::arithmetic::div_mod::lemma_fundamental_div_mod(t, o);
    }
}

proof fn lemma_per_leg_contribution_nonnegative(
    total_stake: u64,
    legs: Seq<SingleBet>,
    multiplier: u64,
)
    requires
        legs.len() > 0,
    ensures
        per_leg_contribution(total_stake as int, legs, multiplier as int) >= 0,
{
    lemma_chained_odds_nonnegative(legs, false);
    let k = chained_odds(legs, false);
    assert(total_stake * k >= 0) by (nonlinear_arith)
        requires
            k >= 0,
            total_stake >= 0,
    ;
    let s1 = sat(total_stake * k);
    assert(s1 * multiplier >= 0) by (nonlinear_arith)
        requires
            s1 >= 0,
            multiplier >= 0,
    ;
}

/// Allocated legs contribute equally. Let `c` be the per-leg contribution
/// and `T = c * 10000` its value in basis points, and suppose `T` fits in
/// `u64`. Then each leg's stake times its odds lies in `(T - odds, T]`; any
/// two legs differ by less than the larger of their odds; and a leg whose
/// odds are at most a twentieth of `T` contributes within 5% of `T`.
pub proof fn lemma_allocations_contribute_equally(
    total_stake: u64,
    legs: Seq<SingleBet>,
    multiplier: u64,
    i: int,
    j: int,
)
    requires
        legs.len() > 0,
        odds_positive(legs),
        0 <= i < legs.len(),
        0 <= j < legs.len(),
        per_leg_contribution(total_stake as int, legs, multiplier as int) * 10000 <= u64::MAX,
    ensures
        ({
            let c = per_leg_contribution(total_stake as int, legs, multiplier as int);
            let oi = legs[i].odds as int;
            let oj = legs[j].odds as int;
            let wi = allocation_for(c, oi) * oi;
            let wj = allocation_for(c, oj) * oj;
            &&& c * 10000 - oi < wi <= c * 10000
            &&& wi - wj < if oi >= oj { oi } else { oj }
            &&& 20 * oi <= c * 10000 ==> 20 * (c * 10000 - wi) <= c * 10000
        }),
{
    lemma_per_leg_contribution_nonnegative(total_stake, legs, multiplier);
    let c = per_leg_contribution(total_stake as int, legs, multiplier as int);
    assert(legs[i].odds > 0);
    assert(legs[j].odds > 0);
    lemma_allocation_bounds(c, legs[i].odds as int);
    lemma_allocation_bounds(c, legs[j].odds as int);
}

/// A leg wins when the result supplied at its position is its prediction.
pub open spec fn leg_won(legs: Seq<SingleBet>, results: Seq<MatchResult>, i: int) -> bool {
    i < results.len() && results[i] == legs[i].prediction
}

/// Sum of the payouts of the winning legs among the first `n` of a system bet.
pub open spec fn system_payout_of(
    legs: Seq<SingleBet>,
    results: Seq<MatchResult>,
    stake_per_leg: int,
    has_badge: bool,
    n: int,
) -> int
    decreases n,
{
    if n <= 0 {
        0
    } else {
        let won = if leg_won(legs, results, n - 1) {
            payout_of(stake_per_leg, legs[n - 1].odds as int, has_badge, BADGE_BONUS_BPS as int)
        } else {
            0
        };
        sat(system_payout_of(legs, results, stake_per_leg, has_badge, n - 1) + won)
    }
}

/// What a bet slip pays given the result of each leg's match.
pub open spec fn slip_payout(slip: Betslip, results: Seq<MatchResult>) -> int {
    let legs = slip.bets@;
    let has_badge = slip.badge_ids@.len() > 0;
    match slip.kind {
        BetKind::Single => if legs.len() == 1 && leg_won(legs, results, 0) {
            payout_of(
                slip.total_stake as int,
                legs[0].odds as int,
                has_badge,
                BADGE_BONUS_BPS as int,
            )
        } else {
            0
        },
        BetKind::Parlay => if forall|i: int| 0 <= i < legs.len() ==> leg_won(legs, results, i) {
            parlay_payout_of(slip.total_stake as int, legs, has_badge)
        } else {
            0
        },
        BetKind::SystemBet => system_payout_of(
            legs,
            results,
            slip.stake_per_bet as int,
            has_badge,
            legs.len() as int,
        ),
    }
}

/// Payout of a bet slip, where `results[i]` is the result of the match of
/// leg `i`. A single pays when its one leg wins, a parlay only when every leg
/// wins, and a system bet pays each winning leg on its own.
pub fn betslip_payout(slip: &Betslip, results: &Vec<MatchResult>) -> (r: u64)
    ensures
        r == slip_payout(*slip, results@),
{
    let legs = &slip.bets;
    let has_badge = slip.badge_ids.len() > 0;
    match slip.kind {
        BetKind::Single => {
            if legs.len() == 1 && 0 < results.len() && results[0] == legs[0].prediction {
                single_bet_payout(slip.total_stake, legs[0].odds, has_badge)
            } else {
                0
            }
        },
        BetKind::Parlay => {
            let mut i: usize = 0;
            while i < legs.len()
                invariant
                    0 <= i <= legs@.len(),
                    slip.kind == BetKind::Parlay,
                    legs@ == slip.bets@,
                    forall|k: int| 0 <= k < i ==> leg_won(legs@, results@, k),
                decreases legs@.len() - i,
            {
                if !(i < results.len() && results[i] == legs[i].prediction) {
                    assert(!leg_won(legs@, results@, i as int));
                    return 0;
                }
                i = i + 1;
            }
            parlay_payout(slip.total_stake, legs, &slip.badge_ids)
        },
        BetKind::SystemBet => {
            let mut total: u64 = 0;
            let mut i: usize = 0;
            while i < legs.len()
                invariant
                    0 <= i <= legs@.len(),
                    has_badge == (slip.badge_ids@.len() > 0),
                    total == system_payout_of(
                        legs@,
                        results@,
                        slip.stake_per_bet as int,
                        has_badge,
                        i as int,
                    ),
                decreases legs@.len() - i,
            {
                if i < results.len() && results[i] == legs[i].prediction {
                    let won = single_bet_payout(slip.stake_per_bet, legs[i].odds, has_badge);
                    total = sat_add(total, won);
                } else {
                    total = sat_add(total, 0);
                }
                i = i + 1;
            }
            total
        },
    }
}

} // verus!
