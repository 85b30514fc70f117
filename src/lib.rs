//! Transition rules and payout arithmetic for a parimutuel football betting
//! ledger whose assets are match, bet slip, badge, season, liquidity pool,
//! pool share and house records.
//!
//! Every rule is a pure function of the records a transition consumes and
//! produces; the payout engine uses integer arithmetic only, so every
//! evaluator reaches the same result.
pub mod model;
pub mod payout;
pub mod digest;
pub mod matches;
pub mod bets;
pub mod season;
pub mod pool;
pub mod assets;
pub mod dispatch;

pub use model::{
    team_index, BadgeData, BetAllocation, BetData, BetKind, Betslip, HouseData, LiquidityPool,
    LockedOdds, LpShare, MatchData, MatchResult, SeasonData, SeasonPrediction, SingleBet,
    BADGE_BONUS_BPS, BADGE_NFT, BET_NFT, HOUSE_EDGE_BPS, HOUSE_NFT, LIQUIDITY_TOLERANCE,
    LP_SHARE_NFT, MARKETPLACE_FEE_BPS, MATCHES_PER_TURN, MATCH_NFT, MAX_BADGE_BONUS_BPS, MAX_BET,
    MAX_LEGS, MAX_ODDS, MIN_BET, MIN_ODDS, POOL_NFT, SEASON_NFT, SEASON_POOL_BPS, TEAMS,
    TEAM_COUNT, TURNS_PER_SEASON,
};
pub use payout::{
    betslip_payout, calculate_payout, combined_odds, compress_odds, lock_odds, parlay_multiplier,
    parlay_payout, single_bet_payout, weighted_allocations,
};
pub use digest::{generate_match_result, identity_digest, match_result_from_digest};
pub use matches::{validate_match_creation, validate_match_resolution, validate_matches};
pub use bets::{
    validate_bet_placement, validate_bet_settlement, validate_bets, validate_slip_placement,
    validate_slip_settlement, validate_slips,
};
pub use season::{champion, validate_season_creation, validate_season_update, validate_seasons};
pub use pool::{
    expected_liquidity, validate_pool_creation, validate_pool_update, validate_pools,
    validate_shares,
};
pub use assets::{validate_badges, validate_bootstrap, validate_house, validate_token, UtxoRef};
pub use dispatch::{asset_kind, validate_transition, AssetKind, Transition};
