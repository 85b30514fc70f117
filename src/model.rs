//! Records, constants and the fixed team roster.
use vstd::prelude::*;

verus! {

/// Asset tag of match records.
pub const MATCH_NFT: char = '\u{0A}';

/// Asset tag of bet records (bet slips and legacy single bets).
pub const BET_NFT: char = '\u{0B}';

/// Asset tag of team badges.
pub const BADGE_NFT: char = '\u{0C}';

/// Asset tag of season records.
pub const SEASON_NFT: char = '\u{0D}';

/// Asset tag of the house record.
pub const HOUSE_NFT: char = '\u{0E}';

/// Number of clubs in the roster.
pub const TEAM_COUNT: usize = 20;

/// The club roster; a team id is an index into it.
pub const TEAMS: [&'static str; 20] = [
    "Arsenal", "Aston Villa", "Bournemouth", "Brentford", "Brighton",
    "Chelsea", "Crystal Palace", "Everton", "Fulham", "Ipswich Town",
    "Leicester City", "Liverpool", "Manchester City", "Manchester United", "Newcastle",
    "Nottingham Forest", "Southampton", "Tottenham", "West Ham", "Wolves",
];

/// Matches played in one turn.
pub const MATCHES_PER_TURN: usize = 10;

/// Turns in one season.
pub const TURNS_PER_SEASON: u32 = 36;

/// House edge, in basis points.
pub const HOUSE_EDGE_BPS: u64 = 400;

/// Badge marketplace fee, in basis points.
pub const MARKETPLACE_FEE_BPS: u64 = 250;

/// Share of the bets that goes to the season pool, in basis points.
pub const SEASON_POOL_BPS: u64 = 200;

/// One unit in basis points (1.0x).
pub const BPS_ONE: u64 = 10000;

/// Asset tag of liquidity pool records.
pub const POOL_NFT: char = '\u{0F}';

/// Asset tag of liquidity pool share records.
pub const LP_SHARE_NFT: char = '\u{10}';

/// Badge bonus applied to the odds of a bettor who holds a badge, in basis points.
pub const BADGE_BONUS_BPS: u64 = 500;

/// Largest bonus a badge may carry, in basis points.
pub const MAX_BADGE_BONUS_BPS: u64 = 1000;

/// Lowest odds a leg may carry (1.0x).
pub const MIN_ODDS: u64 = 10000;

/// Highest odds a leg may carry (10.0x).
pub const MAX_ODDS: u64 = 100000;

/// Smallest stake of a bet or bet slip.
pub const MIN_BET: u64 = 1;

/// Largest stake of a legacy bet.
pub const MAX_BET: u64 = 1_000_000_000;

/// Largest number of legs on one bet slip.
pub const MAX_LEGS: usize = 20;

/// Largest difference allowed between a pool's liquidity and the amount its flows predict.
pub const LIQUIDITY_TOLERANCE: u64 = 100;

/// The name of the club with the given id.
pub open spec fn team_at(i: int) -> Seq<char> {
    TEAMS@[i]@
}

/// The name belongs to a club of the roster.
pub open spec fn is_team(name: Seq<char>) -> bool {
    exists|i: int| 0 <= i < TEAM_COUNT && #[trigger] team_at(i) == name
}

/// Outcome of a match.
#[derive(Debug, Clone, Copy, PartialEq, Eq, Structural)]
pub enum MatchResult {
    Pending,
    HomeWin,
    AwayWin,
    Draw,
}

/// Odds fixed for a match once betting opens, in basis points.
#[derive(Debug, Clone, Copy, PartialEq, Eq, Structural)]
pub struct LockedOdds {
    pub home: u64,
    pub away: u64,
    pub draw: u64,
    pub locked: bool,
}

/// One match of a season turn.
#[derive(Debug, Clone)]
pub struct MatchData {
    pub season_id: String,
    pub turn: u32,
    /// Index of the match within its turn.
    pub match_id: u8,
    pub home_team: String,
    pub away_team: String,
    /// Base odds in basis points (10000 = 1.0x).
    pub home_odds: u64,
    pub away_odds: u64,
    pub draw_odds: u64,
    pub result: MatchResult,
    /// Seed the result was drawn from.
    pub random_seed: Option<String>,
    pub locked_odds: Option<LockedOdds>,
    /// Total stake placed on each outcome so far.
    pub home_volume: u64,
    pub away_volume: u64,
    pub draw_volume: u64,
}

/// A single-prediction bet of the older format.
#[derive(Debug, Clone)]
pub struct BetData {
    pub match_id: String,
    pub prediction: MatchResult,
    pub stake: u64,
    /// Odds at placement, in basis points.
    pub odds: u64,
    pub bettor: String,
    pub has_badge: bool,
    pub settled: bool,
}

/// A team badge, which raises the odds of its holder.
#[derive(Debug, Clone)]
pub struct BadgeData {
    pub team_name: String,
    pub team_id: u8,
    /// Bonus to the odds, in basis points.
    pub bonus_bps: u64,
    pub owner: String,
    /// How many times the badge has been used on a bet.
    pub usage_count: u64,
}

/// Standing of a season.
#[derive(Debug, Clone)]
pub struct SeasonData {
    pub season_id: String,
    pub current_turn: u32,
    /// Points of each club, by team id.
    pub team_scores: [u32; 20],
    pub total_bets_collected: u64,
    pub season_pool: u64,
    pub is_finished: bool,
    /// Team id of the champion, once the season is finished.
    pub winner: Option<u8>,
}

/// A prediction of the champion of a season.
#[derive(Debug, Clone)]
pub struct SeasonPrediction {
    pub season_id: String,
    pub predicted_winner: u8,
    pub predictor: String,
}

/// The administrative record of the protocol.
#[derive(Debug, Clone)]
pub struct HouseData {
    pub total_league_supply: u64,
    pub airdrop_remaining: u64,
    pub protocol_address: String,
}

/// How the legs of a bet slip pay.
#[derive(Debug, Clone, Copy, PartialEq, Eq, Structural)]
pub enum BetKind {
    /// One leg.
    Single,
    /// Pays only when every leg wins.
    Parlay,
    /// Each leg pays on its own.
    SystemBet,
}

/// One leg of a bet slip.
#[derive(Debug, Clone)]
pub struct SingleBet {
    pub match_id: String,
    pub prediction: MatchResult,
    /// Odds locked at placement, in basis points.
    pub odds: u64,
}

/// The stake given to one leg of a multi-leg slip.
#[derive(Debug, Clone)]
pub struct BetAllocation {
    pub match_id: String,
    pub stake: u64,
}

/// A bet slip of one or more legs.
#[derive(Debug, Clone)]
pub struct Betslip {
    pub slip_id: String,
    pub bettor: String,
    pub kind: BetKind,
    pub bets: Vec<SingleBet>,
    pub total_stake: u64,
    pub stake_per_bet: u64,
    pub potential_payout: u64,
    /// Team ids of the badges the bettor held at placement.
    pub badge_ids: Vec<u8>,
    pub settled: bool,
    pub payout_amount: u64,
    pub placed_at: u64,
    pub allocations: Vec<BetAllocation>,
    /// Parlay multiplier locked at placement, in basis points.
    pub parlay_multiplier: u64,
}

/// The pool that backs the payouts.
#[derive(Debug, Clone)]
pub struct LiquidityPool {
    pub pool_id: String,
    pub total_liquidity: u64,
    pub total_shares: u64,
    pub bets_in_play: u64,
    pub total_paid_out: u64,
    pub total_collected: u64,
    pub protocol_revenue: u64,
    pub house_balance: u64,
    pub is_active: bool,
    pub min_liquidity: u64,
}

/// A provider's share of the liquidity pool.
#[derive(Debug, Clone)]
pub struct LpShare {
    pub share_id: String,
    pub lp_address: String,
    pub shares: u64,
    pub initial_deposit: u64,
    pub total_withdrawn: u64,
    pub deposited_at: u64,
}

/// The index of `name` in the roster, if it is a club of the roster.
pub fn team_index(name: &String) -> (r: Option<usize>)
    ensures
        r matches Some(i) ==> i < TEAM_COUNT && team_at(i as int) == name@,
        r is None <==> !is_team(name@),
{
    let mut i: usize = 0;
    while i < TEAM_COUNT
        invariant
            0 <= i <= TEAM_COUNT,
            forall|j: int| 0 <= j < i ==> team_at(j) != name@,
        decreases TEAM_COUNT - i,
    {
        let candidate = TEAMS[i].to_owned();
        if candidate == *name {
            assert(team_at(i as int) == name@);
            return Some(i);
        }
        i = i + 1;
    }
    None
}

} // verus!
