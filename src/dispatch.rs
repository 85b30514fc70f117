//! One transition of one asset kind, and the rule that decides it.
use vstd::prelude::*;
use crate::model::{
    BadgeData, BetData, Betslip, LiquidityPool, LpShare, MatchData, SeasonData, BADGE_NFT,
    BET_NFT, HOUSE_NFT, LP_SHARE_NFT, MATCH_NFT, POOL_NFT, SEASON_NFT,
};
use crate::assets::{
    badge_transition_ok, bootstrap_ok, token_transition_ok, validate_badges, validate_bootstrap,
    validate_house, validate_token, UtxoRef,
};
use crate::bets::{bet_transition_ok, slip_transition_ok, validate_bets, validate_slips};
use crate::matches::{match_transition_ok, validate_matches};
use crate::pool::{pool_transition_ok, shares_ok, validate_pools, validate_shares};
use crate::season::{season_transition_ok, validate_seasons};

verus! {

/// Asset tag of the LEAGUE token.
pub const TOKEN_TAG: char = 't';

/// Asset tag of the bootstrap NFT.
pub const BOOTSTRAP_TAG: char = 'n';

/// The kinds of asset the ledger knows.
#[derive(Debug, Clone, Copy, PartialEq, Eq, Structural)]
pub enum AssetKind {
    Token,
    Bootstrap,
    Match,
    Bet,
    Badge,
    Season,
    House,
    Pool,
    Share,
}

/// The kind an asset tag stands for.
pub open spec fn kind_of_tag(tag: char) -> Option<AssetKind> {
    if tag == TOKEN_TAG {
        Some(AssetKind::Token)
    } else if tag == BOOTSTRAP_TAG {
        Some(AssetKind::Bootstrap)
    } else if tag == MATCH_NFT {
        Some(AssetKind::Match)
    } else if tag == BET_NFT {
        Some(AssetKind::Bet)
    } else if tag == BADGE_NFT {
        Some(AssetKind::Badge)
    } else if tag == SEASON_NFT {
        Some(AssetKind::Season)
    } else if tag == HOUSE_NFT {
        Some(AssetKind::House)
    } else if tag == POOL_NFT {
        Some(AssetKind::Pool)
    } else if tag == LP_SHARE_NFT {
        Some(AssetKind::Share)
    } else {
        None
    }
}

/// The kind of asset a tag stands for; `None` for an unknown tag.
pub fn asset_kind(tag: char) -> (r: Option<AssetKind>)
    ensures
        r == kind_of_tag(tag),
{
    if tag == TOKEN_TAG {
        Some(AssetKind::Token)
    } else if tag == BOOTSTRAP_TAG {
        Some(AssetKind::Bootstrap)
    } else if tag == MATCH_NFT {
        Some(AssetKind::Match)
    } else if tag == BET_NFT {
        Some(AssetKind::Bet)
    } else if tag == BADGE_NFT {
        Some(AssetKind::Badge)
    } else if tag == SEASON_NFT {
        Some(AssetKind::Season)
    } else if tag == HOUSE_NFT {
        Some(AssetKind::House)
    } else if tag == POOL_NFT {
        Some(AssetKind::Pool)
    } else if tag == LP_SHARE_NFT {
        Some(AssetKind::Share)
    } else {
        None
    }
}

/// The records of one asset kind that a transaction consumes (`ins`) and
/// produces (`outs`), already decoded.
pub enum Transition {
    Token { ins: Vec<u64>, outs: Vec<u64>, input_tags: Vec<char> },
    Bootstrap { witness: Option<String>, identity: [u8; 32], spent: Vec<UtxoRef> },
    Match { ins: Vec<MatchData>, outs: Vec<MatchData> },
    Bet {
        slip_ins: Vec<Betslip>,
        slip_outs: Vec<Betslip>,
        bet_ins: Vec<BetData>,
        bet_outs: Vec<BetData>,
    },
    Badge { ins: Vec<BadgeData>, outs: Vec<BadgeData> },
    Season { ins: Vec<SeasonData>, outs: Vec<SeasonData> },
    House,
    Pool { ins: Vec<LiquidityPool>, outs: Vec<LiquidityPool> },
    Share { outs: Vec<LpShare> },
}

/// The rule of the transition's asset kind accepts it.
pub open spec fn transition_ok(t: Transition) -> bool {
    match t {
        Transition::Token { ins, outs, input_tags } => token_transition_ok(
            ins@,
            outs@,
            input_tags@,
        ),
        Transition::Bootstrap { witness, identity, spent } => bootstrap_ok(
            witness,
            identity@,
            spent@,
        ),
        Transition::Match { ins, outs } => match_transition_ok(ins@, outs@),
        Transition::Bet { slip_ins, slip_outs, bet_ins, bet_outs } => slip_transition_ok(
            slip_ins@,
            slip_outs@,
        ) && bet_transition_ok(bet_ins@, bet_outs@),
        Transition::Badge { ins, outs } => badge_transition_ok(ins@, outs@),
        Transition::Season { ins, outs } => season_transition_ok(ins@, outs@),
        Transition::House => true,
        Transition::Pool { ins, outs } => pool_transition_ok(ins@, outs@),
        Transition::Share { outs } => shares_ok(outs@),
    }
}

/// Decides a transition by the rule of its asset kind.
pub fn validate_transition(t: &Transition) -> (r: bool)
    ensures
        r == transition_ok(*t),
{
    match t {
        Transition::Token { ins, outs, input_tags } => validate_token(ins, outs, input_tags),
        Transition::Bootstrap { witness, identity, spent } => validate_bootstrap(
            witness,
            identity,
            spent,
        ),
        Transition::Match { ins, outs } => validate_matches(ins, outs),
        Transition::Bet { slip_ins, slip_outs, bet_ins, bet_outs } => validate_slips(
            slip_ins,
            slip_outs,
        ) && validate_bets(bet_ins, bet_outs),
        Transition::Badge { ins, outs } => validate_badges(ins, outs),
        Transition::Season { ins, outs } => validate_seasons(ins, outs),
        Transition::House => validate_house(),
        Transition::Pool { ins, outs } => validate_pools(ins, outs),
        Transition::Share { outs } => validate_shares(outs),
    }
}

} // verus!
