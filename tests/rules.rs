use league_charms::{
    asset_kind, champion, expected_liquidity, identity_digest, validate_badges, validate_bets,
    validate_bootstrap, validate_house, validate_match_creation, validate_matches,
    validate_pools, validate_season_update, validate_seasons, validate_shares, validate_slips,
    validate_token, validate_transition, AssetKind, BadgeData, BetData, BetKind, Betslip,
    LiquidityPool, LockedOdds, LpShare, MatchData, MatchResult, SeasonData, SingleBet,
    Transition, UtxoRef, BET_NFT, HOUSE_NFT, MATCH_NFT,
};

fn fixture(home: &str, away: &str) -> MatchData {
    MatchData {
        season_id: "s1".to_string(),
        turn: 1,
        match_id: 0,
        home_team: home.to_string(),
        away_team: away.to_string(),
        home_odds: 18000,
        away_odds: 22000,
        draw_odds: 32000,
        result: MatchResult::Pending,
        random_seed: None,
        locked_odds: Some(LockedOdds { home: 14000, away: 16000, draw: 19000, locked: true }),
        home_volume: 0,
        away_volume: 0,
        draw_volume: 0,
    }
}

fn resolved(m: &MatchData, result: MatchResult) -> MatchData {
    let mut r = m.clone();
    r.result = result;
    r.random_seed = Some("seed".to_string());
    r
}

#[test]
fn match_creation_accepts_valid_fixture() {
    assert!(validate_match_creation(&vec![fixture("Arsenal", "Liverpool")]));
    assert!(validate_matches(&vec![], &vec![fixture("Wolves", "West Ham")]));
}

#[test]
fn match_creation_rejects_same_team() {
    assert!(!validate_match_creation(&vec![fixture("Arsenal", "Arsenal")]));
}

#[test]
fn match_creation_rejects_unknown_team() {
    assert!(!validate_match_creation(&vec![fixture("Arsenal", "Real Madrid")]));
    assert!(!validate_match_creation(&vec![fixture("arsenal", "Liverpool")]));
}

#[test]
fn match_creation_rejects_bad_odds_volume_or_result() {
    let mut m = fixture("Arsenal", "Liverpool");
    m.draw_odds = 100001;
    assert!(!validate_match_creation(&vec![m]));
    let mut m = fixture("Arsenal", "Liverpool");
    m.home_odds = 9999;
    assert!(!validate_match_creation(&vec![m]));
    let mut m = fixture("Arsenal", "Liverpool");
    m.away_volume = 1;
    assert!(!validate_match_creation(&vec![m]));
    let m = resolved(&fixture("Arsenal", "Liverpool"), MatchResult::Draw);
    assert!(!validate_match_creation(&vec![m]));
}

#[test]
fn match_resolution_rules() {
    let m = fixture("Arsenal", "Liverpool");
    let mut r = resolved(&m, MatchResult::HomeWin);
    r.home_volume = 500;
    assert!(validate_matches(&vec![m.clone()], &vec![r.clone()]));

    let mut no_seed = r.clone();
    no_seed.random_seed = None;
    assert!(!validate_matches(&vec![m.clone()], &vec![no_seed]));

    let still_pending = resolved(&m, MatchResult::Pending);
    assert!(!validate_matches(&vec![m.clone()], &vec![still_pending]));

    let mut new_odds = r.clone();
    new_odds.away_odds = 25000;
    assert!(!validate_matches(&vec![m.clone()], &vec![new_odds]));

    let mut relocked = r.clone();
    relocked.locked_odds = None;
    assert!(!validate_matches(&vec![m.clone()], &vec![relocked]));

    assert!(!validate_matches(&vec![r.clone()], &vec![resolved(&r, MatchResult::Draw)]));
    assert!(!validate_matches(&vec![m.clone(), m.clone()], &vec![r.clone()]));
    assert!(!validate_matches(&vec![m.clone()], &vec![]));
    assert!(validate_matches(&vec![], &vec![]));

    let mut shrunk = fixture("Arsenal", "Liverpool");
    shrunk.draw_volume = 10;
    let mut less = resolved(&shrunk, MatchResult::Draw);
    less.draw_volume = 9;
    assert!(!validate_matches(&vec![shrunk], &vec![less]));
}

fn leg(odds: u64) -> SingleBet {
    SingleBet { match_id: "m".to_string(), prediction: MatchResult::HomeWin, odds }
}

fn slip(kind: BetKind, bets: Vec<SingleBet>, total_stake: u64, stake_per_bet: u64) -> Betslip {
    Betslip {
        slip_id: "slip".to_string(),
        bettor: "bettor".to_string(),
        kind,
        bets,
        total_stake,
        stake_per_bet,
        potential_payout: 40000,
        badge_ids: vec![0, 19],
        settled: false,
        payout_amount: 0,
        placed_at: 7,
        allocations: vec![],
        parlay_multiplier: 10500,
    }
}

#[test]
fn slip_placement_accepts_each_kind() {
    assert!(validate_slips(&vec![], &vec![slip(BetKind::Single, vec![leg(20000)], 1000, 1000)]));
    assert!(validate_slips(&vec![], &vec![slip(BetKind::Parlay, vec![leg(20000), leg(18000)], 10000, 0)]));
    assert!(validate_slips(&vec![], &vec![slip(BetKind::SystemBet, vec![leg(20000), leg(18000)], 10000, 5000)]));
}

#[test]
fn slip_placement_rejects_bad_shapes() {
    assert!(!validate_slips(&vec![], &vec![slip(BetKind::Single, vec![leg(20000)], 1000, 999)]));
    assert!(!validate_slips(&vec![], &vec![slip(BetKind::Single, vec![leg(20000), leg(20000)], 1000, 1000)]));
    assert!(!validate_slips(&vec![], &vec![slip(BetKind::Parlay, vec![leg(20000)], 10000, 0)]));
    assert!(!validate_slips(&vec![], &vec![slip(BetKind::SystemBet, vec![leg(20000), leg(18000)], 10000, 5001)]));
    let mut low = slip(BetKind::Parlay, vec![leg(20000), leg(18000)], 10000, 0);
    low.potential_payout = 10000;
    assert!(!validate_slips(&vec![], &vec![low]));
    let flat = slip(BetKind::Parlay, vec![leg(10000), leg(10000)], 10000, 0);
    assert!(!validate_slips(&vec![], &vec![flat]));
    let too_many = slip(BetKind::SystemBet, (0..21).map(|_| leg(20000)).collect(), 21000, 1000);
    assert!(!validate_slips(&vec![], &vec![too_many]));
}

#[test]
fn slip_placement_rejects_bad_legs_badges_and_state() {
    let mut pending = leg(20000);
    pending.prediction = MatchResult::Pending;
    assert!(!validate_slips(&vec![], &vec![slip(BetKind::Single, vec![pending], 1000, 1000)]));
    assert!(!validate_slips(&vec![], &vec![slip(BetKind::Single, vec![leg(100001)], 1000, 1000)]));
    let mut badge = slip(BetKind::Single, vec![leg(20000)], 1000, 1000);
    badge.badge_ids = vec![20];
    assert!(!validate_slips(&vec![], &vec![badge]));
    let mut settled = slip(BetKind::Single, vec![leg(20000)], 1000, 1000);
    settled.settled = true;
    assert!(!validate_slips(&vec![], &vec![settled]));
    let mut paid = slip(BetKind::Single, vec![leg(20000)], 1000, 1000);
    paid.payout_amount = 1;
    assert!(!validate_slips(&vec![], &vec![paid]));
    assert!(!validate_slips(&vec![], &vec![slip(BetKind::Single, vec![leg(20000)], 0, 0)]));
}

#[test]
fn slip_settlement_rules() {
    let open = slip(BetKind::Single, vec![leg(20000)], 1000, 1000);
    let mut done = open.clone();
    done.settled = true;
    done.payout_amount = 80000;
    assert!(validate_slips(&vec![open.clone()], &vec![done.clone()]));
    assert!(validate_slips(&vec![open.clone()], &vec![]));
    let mut greedy = done.clone();
    greedy.payout_amount = 80001;
    assert!(!validate_slips(&vec![open.clone()], &vec![greedy]));
    let mut unsettled = done.clone();
    unsettled.settled = false;
    assert!(!validate_slips(&vec![open.clone()], &vec![unsettled]));
    assert!(!validate_slips(&vec![done.clone()], &vec![done.clone()]));
}

fn bet(stake: u64, prediction: MatchResult, settled: bool) -> BetData {
    BetData {
        match_id: "m".to_string(),
        prediction,
        stake,
        odds: 18000,
        bettor: "b".to_string(),
        has_badge: false,
        settled,
    }
}

#[test]
fn legacy_bet_rules() {
    assert!(validate_bets(&vec![], &vec![bet(5000, MatchResult::Draw, false)]));
    assert!(!validate_bets(&vec![], &vec![bet(0, MatchResult::Draw, false)]));
    assert!(!validate_bets(&vec![], &vec![bet(1_000_000_001, MatchResult::Draw, false)]));
    assert!(!validate_bets(&vec![], &vec![bet(5000, MatchResult::Pending, false)]));
    assert!(!validate_bets(&vec![], &vec![bet(5000, MatchResult::Draw, true)]));
    assert!(validate_bets(&vec![bet(5000, MatchResult::Draw, false)], &vec![]));
    assert!(!validate_bets(&vec![bet(5000, MatchResult::Draw, true)], &vec![]));
}

fn badge(id: u8, name: &str, bonus: u64, usage: u64) -> BadgeData {
    BadgeData {
        team_name: name.to_string(),
        team_id: id,
        bonus_bps: bonus,
        owner: "alice".to_string(),
        usage_count: usage,
    }
}

#[test]
fn badge_rules() {
    assert!(validate_badges(&vec![], &vec![badge(12, "Manchester City", 500, 0)]));
    assert!(!validate_badges(&vec![], &vec![badge(12, "Manchester United", 500, 0)]));
    assert!(!validate_badges(&vec![], &vec![badge(20, "Arsenal", 500, 0)]));
    assert!(!validate_badges(&vec![], &vec![badge(0, "Arsenal", 0, 0)]));
    assert!(!validate_badges(&vec![], &vec![badge(0, "Arsenal", 1001, 0)]));
    assert!(validate_badges(&vec![], &vec![badge(0, "Arsenal", 1000, 0)]));
}

#[test]
fn badge_trade_rules() {
    let old = badge(11, "Liverpool", 500, 3);
    let mut sold = old.clone();
    sold.owner = "bob".to_string();
    sold.usage_count = 4;
    assert!(validate_badges(&vec![old.clone()], &vec![sold]));
    assert!(!validate_badges(&vec![old.clone()], &vec![badge(12, "Manchester City", 500, 3)]));
    assert!(!validate_badges(&vec![old.clone()], &vec![badge(11, "Liverpool", 500, 2)]));
}

fn season(turn: u32) -> SeasonData {
    SeasonData {
        season_id: "s1".to_string(),
        current_turn: turn,
        team_scores: [0; 20],
        total_bets_collected: 0,
        season_pool: 0,
        is_finished: false,
        winner: None,
    }
}

#[test]
fn season_creation_rules() {
    assert!(validate_seasons(&vec![], &vec![season(0)]));
    assert!(!validate_seasons(&vec![], &vec![season(1)]));
    let mut scored = season(0);
    scored.team_scores[5] = 1;
    assert!(!validate_seasons(&vec![], &vec![scored]));
    let mut funded = season(0);
    funded.season_pool = 1;
    assert!(!validate_seasons(&vec![], &vec![funded]));
}

#[test]
fn season_update_rules() {
    let old = season(3);
    let mut next = season(4);
    next.total_bets_collected = 10000;
    next.season_pool = 200;
    assert!(validate_season_update(&vec![old.clone()], &vec![next.clone()]));
    assert!(!validate_season_update(&vec![old.clone()], &vec![season(5)]));
    assert!(!validate_season_update(&vec![old.clone()], &vec![season(2)]));
    let mut renamed = season(4);
    renamed.season_id = "s2".to_string();
    assert!(!validate_season_update(&vec![old.clone()], &vec![renamed]));
    let mut shrunk = next.clone();
    shrunk.current_turn = 4;
    shrunk.season_pool = 100;
    assert!(!validate_season_update(&vec![next.clone()], &vec![shrunk]));
}

#[test]
fn season_end_requires_finish_and_champion() {
    let old = season(35);
    let mut last = season(36);
    last.team_scores[3] = 70;
    last.team_scores[8] = 70;
    last.team_scores[1] = 60;
    assert!(!validate_season_update(&vec![old.clone()], &vec![last.clone()]));
    last.is_finished = true;
    assert!(!validate_season_update(&vec![old.clone()], &vec![last.clone()]));
    last.winner = Some(1);
    assert!(!validate_season_update(&vec![old.clone()], &vec![last.clone()]));
    last.winner = Some(8);
    assert!(!validate_season_update(&vec![old.clone()], &vec![last.clone()]));
    last.winner = Some(3);
    assert!(validate_season_update(&vec![old.clone()], &vec![last.clone()]));
    assert_eq!(champion(&last.team_scores), 3);
}

#[test]
fn finished_season_is_frozen() {
    let mut done = season(36);
    done.is_finished = true;
    done.winner = Some(0);
    assert!(validate_season_update(&vec![done.clone()], &vec![done.clone()]));
    let mut reopened = done.clone();
    reopened.is_finished = false;
    assert!(!validate_season_update(&vec![done.clone()], &vec![reopened]));
    let mut rewound = done.clone();
    rewound.current_turn = 35;
    assert!(!validate_season_update(&vec![done.clone()], &vec![rewound]));
}

fn pool(liquidity: u64) -> LiquidityPool {
    LiquidityPool {
        pool_id: "p".to_string(),
        total_liquidity: liquidity,
        total_shares: liquidity,
        bets_in_play: 0,
        total_paid_out: 0,
        total_collected: 0,
        protocol_revenue: 0,
        house_balance: liquidity,
        is_active: true,
        min_liquidity: 100_000,
    }
}

#[test]
fn pool_creation_rules() {
    assert!(validate_pools(&vec![], &vec![pool(1_000_000)]));
    assert!(!validate_pools(&vec![], &vec![pool(50_000)]));
    assert!(!validate_pools(&vec![], &vec![pool(0)]));
    let mut skewed = pool(1_000_000);
    skewed.house_balance = 999_999;
    assert!(!validate_pools(&vec![], &vec![skewed]));
    let mut busy = pool(1_000_000);
    busy.bets_in_play = 1;
    assert!(!validate_pools(&vec![], &vec![busy]));
}

fn after_flows(old: &LiquidityPool, liquidity: u64) -> LiquidityPool {
    let mut p = old.clone();
    p.total_collected = 150_000;
    p.total_paid_out = 50_000;
    p.protocol_revenue = 6_000;
    p.total_liquidity = liquidity;
    p.house_balance = liquidity;
    p
}

#[test]
fn pool_solvency_example() {
    let old = pool(1_000_000);
    assert_eq!(expected_liquidity(&old, &after_flows(&old, 0)), 1_094_000);
    assert!(validate_pools(&vec![old.clone()], &vec![after_flows(&old, 1_094_000)]));
    assert!(validate_pools(&vec![old.clone()], &vec![after_flows(&old, 1_094_100)]));
    assert!(validate_pools(&vec![old.clone()], &vec![after_flows(&old, 1_093_900)]));
    assert!(!validate_pools(&vec![old.clone()], &vec![after_flows(&old, 1_094_101)]));
    assert!(!validate_pools(&vec![old.clone()], &vec![after_flows(&old, 1_093_899)]));
}

#[test]
fn pool_update_rules() {
    let old = after_flows(&pool(1_000_000), 1_094_000);
    let mut back = old.clone();
    back.total_paid_out = 40_000;
    back.total_liquidity = 1_104_000;
    assert!(!validate_pools(&vec![old.clone()], &vec![back]));
    let mut idle = old.clone();
    idle.bets_in_play = 10;
    idle.is_active = false;
    assert!(!validate_pools(&vec![old.clone()], &vec![idle]));
    let mut drained = old.clone();
    drained.house_balance = 99_999;
    assert!(!validate_pools(&vec![old.clone()], &vec![drained]));
    let mut closed = old.clone();
    closed.is_active = false;
    closed.house_balance = 0;
    assert!(validate_pools(&vec![old.clone()], &vec![closed]));
}

#[test]
fn pool_liquidity_floors_at_zero() {
    let old = pool(1_000);
    let mut p = old.clone();
    p.total_paid_out = 5_000;
    p.total_liquidity = 0;
    assert_eq!(expected_liquidity(&old, &p), 0);
}

#[test]
fn share_rules() {
    let share = LpShare {
        share_id: "sh".to_string(),
        lp_address: "addr".to_string(),
        shares: 10,
        initial_deposit: 10,
        total_withdrawn: 0,
        deposited_at: 1,
    };
    assert!(validate_shares(&vec![share.clone()]));
    let mut nameless = share.clone();
    nameless.share_id = String::new();
    assert!(!validate_shares(&vec![nameless]));
    let mut homeless = share.clone();
    homeless.lp_address = String::new();
    assert!(!validate_shares(&vec![homeless]));
}

#[test]
fn token_rules() {
    assert!(validate_token(&vec![100, 50], &vec![120], &vec![]));
    assert!(validate_token(&vec![100, 50], &vec![150], &vec!['t']));
    assert!(!validate_token(&vec![100, 50], &vec![151], &vec!['t', MATCH_NFT]));
    assert!(validate_token(&vec![100, 50], &vec![151], &vec!['t', HOUSE_NFT]));
    assert!(validate_token(&vec![u64::MAX, u64::MAX], &vec![u64::MAX, 1], &vec![]));
    assert!(validate_house());
}

const WITNESS: &str = "92077a14998b31367efeec5203a00f1080facdb270cbf055f09b66ae0a273c7d:3";

fn witness_utxo(vout: u32) -> UtxoRef {
    let hex = "92077a14998b31367efeec5203a00f1080facdb270cbf055f09b66ae0a273c7d";
    let mut txid = [0u8; 32];
    for i in 0..32 {
        txid[31 - i] = u8::from_str_radix(&hex[2 * i..2 * i + 2], 16).unwrap();
    }
    UtxoRef { txid, vout }
}

#[test]
fn bootstrap_rules() {
    let identity = identity_digest(WITNESS);
    assert_eq!(identity[0], 189);
    assert_eq!(identity[31], 12);
    let w = Some(WITNESS.to_string());
    assert!(validate_bootstrap(&w, &identity, &vec![witness_utxo(0), witness_utxo(3)]));
    assert!(!validate_bootstrap(&w, &identity, &vec![witness_utxo(2)]));
    assert!(!validate_bootstrap(&w, &[0u8; 32], &vec![witness_utxo(3)]));
    assert!(!validate_bootstrap(&None, &identity, &vec![witness_utxo(3)]));
    let bad = "not a utxo".to_string();
    assert!(!validate_bootstrap(&Some(bad.clone()), &identity_digest(&bad), &vec![witness_utxo(3)]));
}

#[test]
fn asset_kinds_by_tag() {
    assert_eq!(asset_kind('t'), Some(AssetKind::Token));
    assert_eq!(asset_kind('n'), Some(AssetKind::Bootstrap));
    assert_eq!(asset_kind(MATCH_NFT), Some(AssetKind::Match));
    assert_eq!(asset_kind(BET_NFT), Some(AssetKind::Bet));
    assert_eq!(asset_kind(HOUSE_NFT), Some(AssetKind::House));
    assert_eq!(asset_kind('\u{0F}'), Some(AssetKind::Pool));
    assert_eq!(asset_kind('\u{10}'), Some(AssetKind::Share));
    assert_eq!(asset_kind('x'), None);
}

#[test]
fn transitions_dispatch_to_their_rule() {
    assert!(validate_transition(&Transition::House));
    let good = Transition::Match { ins: vec![], outs: vec![fixture("Chelsea", "Fulham")] };
    assert!(validate_transition(&good));
    let bad = Transition::Match { ins: vec![], outs: vec![fixture("Chelsea", "Chelsea")] };
    assert!(!validate_transition(&bad));
    let bets = Transition::Bet {
        slip_ins: vec![],
        slip_outs: vec![],
        bet_ins: vec![],
        bet_outs: vec![bet(0, MatchResult::Draw, false)],
    };
    assert!(!validate_transition(&bets));
    let mint = Transition::Token { ins: vec![], outs: vec![5], input_tags: vec!['t'] };
    assert!(!validate_transition(&mint));
    let minted = Transition::Token { ins: vec![], outs: vec![5], input_tags: vec![HOUSE_NFT] };
    assert!(validate_transition(&minted));
}
