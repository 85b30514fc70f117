//! Rules for the liquidity pool and the shares of its providers.
use vstd::prelude::*;
use crate::model::{LiquidityPool, LpShare, LIQUIDITY_TOLERANCE};

verus! {

/// `a - b`, or zero when `b` is larger.
pub open spec fn floor_sub(a: int, b: int) -> int {
    if a >= b {
        a - b
    } else {
        0
    }
}

/// Liquidity the flows between two pool records predict: the old liquidity
/// plus the newly collected bets, less the new payouts and the new protocol
/// revenue, each subtraction floored at zero.
pub open spec fn predicted_liquidity(old: LiquidityPool, new: LiquidityPool) -> int {
    let collected = floor_sub(new.total_collected as int, old.total_collected as int);
    let paid = floor_sub(new.total_paid_out as int, old.total_paid_out as int);
    let revenue = floor_sub(new.protocol_revenue as int, old.protocol_revenue as int);
    floor_sub(floor_sub(old.total_liquidity + collected, paid), revenue)
}

/// A pool as opened: funded, with no flows yet, its whole liquidity in the
/// house balance, active, and above its floor.
pub open spec fn valid_new_pool(p: LiquidityPool) -> bool {
    &&& p.total_liquidity > 0
    &&& p.bets_in_play == 0
    &&& p.total_paid_out == 0
    &&& p.total_collected == 0
    &&& p.protocol_revenue == 0
    &&& p.house_balance == p.total_liquidity
    &&& p.is_active
    &&& p.total_liquidity >= p.min_liquidity
}

/// One step of a pool: same id, flow totals never shrink, a pool with bets
/// in play stays active, the new liquidity is within the tolerance of what
/// the flows predict, and an active pool keeps its house balance above its
/// floor.
pub open spec fn valid_pool_update(old: LiquidityPool, new: LiquidityPool) -> bool {
    &&& old.pool_id@ == new.pool_id@
    &&& old.total_paid_out <= new.total_paid_out
    &&& old.total_collected <= new.total_collected
    &&& old.protocol_revenue <= new.protocol_revenue
    &&& new.bets_in_play > 0 ==> new.is_active
    &&& new.total_liquidity - predicted_liquidity(old, new) <= LIQUIDITY_TOLERANCE
    &&& predicted_liquidity(old, new) - new.total_liquidity <= LIQUIDITY_TOLERANCE
    &&& new.is_active ==> new.house_balance >= new.min_liquidity
}

pub open spec fn pool_creation_ok(pools: Seq<LiquidityPool>) -> bool {
    forall|i: int| 0 <= i < pools.len() ==> valid_new_pool(#[trigger] pools[i])
}

pub open spec fn pool_update_ok(old: Seq<LiquidityPool>, new: Seq<LiquidityPool>) -> bool {
    &&& old.len() == new.len()
    &&& forall|i: int| 0 <= i < old.len() ==> valid_pool_update(#[trigger] old[i], new[i])
}

/// Pool records of a transition: creation when only new records are
/// present, update when both are.
pub open spec fn pool_transition_ok(old: Seq<LiquidityPool>, new: Seq<LiquidityPool>) -> bool {
    if old.len() == 0 {
        pool_creation_ok(new)
    } else if new.len() == 0 {
        true
    } else {
        pool_update_ok(old, new)
    }
}

/// A share record names its share and its provider.
pub open spec fn valid_share(s: LpShare) -> bool {
    s.share_id@.len() > 0 && s.lp_address@.len() > 0
}

pub open spec fn shares_ok(new: Seq<LpShare>) -> bool {
    forall|i: int| 0 <= i < new.len() ==> valid_share(#[trigger] new[i])
}

fn floor_sub_u128(a: u128, b: u128) -> (r: u128)
    ensures
        r == floor_sub(a as int, b as int),
{
    if a >= b {
        a - b
    } else {
        0
    }
}

/// The liquidity the flows between `old` and `new` predict.
pub fn expected_liquidity(old: &LiquidityPool, new: &LiquidityPool) -> (r: u128)
    ensures
        r == predicted_liquidity(*old, *new),
{
    let collected = floor_sub_u128(new.total_collected as u128, old.total_collected as u128);
    let paid = floor_sub_u128(new.total_paid_out as u128, old.total_paid_out as u128);
    let revenue = floor_sub_u128(new.protocol_revenue as u128, old.protocol_revenue as u128);
    floor_sub_u128(floor_sub_u128(old.total_liquidity as u128 + collected, paid), revenue)
}

fn check_new_pool(p: &LiquidityPool) -> (r: bool)
    ensures
        r == valid_new_pool(*p),
{
    p.total_liquidity > 0 && p.bets_in_play == 0 && p.total_paid_out == 0 && p.total_collected == 0
        && p.protocol_revenue == 0 && p.house_balance == p.total_liquidity && p.is_active
        && p.total_liquidity >= p.min_liquidity
}

fn check_pool_update(old: &LiquidityPool, new: &LiquidityPool) -> (r: bool)
    ensures
        r == valid_pool_update(*old, *new),
{
    if old.pool_id != new.pool_id {
        return false;
    }
    if new.total_paid_out < old.total_paid_out || new.total_collected < old.total_collected
        || new.protocol_revenue < old.protocol_revenue {
        return false;
    }
    if new.bets_in_play > 0 && !new.is_active {
        return false;
    }
    let expected = expected_liquidity(old, new);
    let actual = new.total_liquidity as u128;
    let tolerance = LIQUIDITY_TOLERANCE as u128;
    if actual > expected && actual - expected > tolerance {
        return false;
    }
    if expected > actual && expected - actual > tolerance {
        return false;
    }
    !new.is_active || new.house_balance >= new.min_liquidity
}

/// Accepts newly opened pools.
pub fn validate_pool_creation(pools: &Vec<LiquidityPool>) -> (r: bool)
    ensures
        r == pool_creation_ok(pools@),
{
    let mut i: usize = 0;
    while i < pools.len()
        invariant
            0 <= i <= pools@.len(),
            forall|k: int| 0 <= k < i ==> valid_new_pool(#[trigger] pools@[k]),
        decreases pools@.len() - i,
    {
        if !check_new_pool(&pools[i]) {
            return false;
        }
        i = i + 1;
    }
    true
}

/// Accepts updates of pools, paired by position.
pub fn validate_pool_update(old: &Vec<LiquidityPool>, new: &Vec<LiquidityPool>) -> (r: bool)
    ensures
        r == pool_update_ok(old@, new@),
{
    if old.len() != new.len() {
        return false;
    }
    let mut i: usize = 0;
    while i < old.len()
        invariant
            0 <= i <= old@.len(),
            old@.len() == new@.len(),
            forall|k: int| 0 <= k < i ==> valid_pool_update(#[trigger] old@[k], new@[k]),
        decreases old@.len() - i,
    {
        if !check_pool_update(&old[i], &new[i]) {
            return false;
        }
        i = i + 1;
    }
    true
}

/// Decides the pool records of a transition.
pub fn validate_pools(old: &Vec<LiquidityPool>, new: &Vec<LiquidityPool>) -> (r: bool)
    ensures
        r == pool_transition_ok(old@, new@),
{
    if old.len() == 0 {
        validate_pool_creation(new)
    } else if new.len() == 0 {
        true
    } else {
        validate_pool_update(old, new)
    }
}

/// Accepts new share records that name their share and provider. Whether
/// shares match the pool's liquidity is the pool's rule, not this one.
pub fn validate_shares(new: &Vec<LpShare>) -> (r: bool)
    ensures
        r == shares_ok(new@),
{
    let mut i: usize = 0;
    while i < new.len()
        invariant
            0 <= i <= new@.len(),
            forall|k: int| 0 <= k < i ==> valid_share(#[trigger] new@[k]),
        decreases new@.len() - i,
    {
        let s = &new[i];
        if s.share_id.as_str().is_empty() || s.lp_address.as_str().is_empty() {
            return false;
        }
        i = i + 1;
    }
    true
}

} // verus!
