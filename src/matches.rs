//! Rules for match records: creation of pending fixtures and their one-time
//! resolution.
use vstd::prelude::*;
use crate::model::{is_team, team_index, MatchData, MatchResult, MAX_ODDS, MIN_ODDS};

verus! {

/// Odds within the accepted range.
pub open spec fn odds_in_range(odds: u64) -> bool {
    MIN_ODDS <= odds <= MAX_ODDS
}

/// A newly created match: pending, between two distinct clubs of the roster,
/// with odds in range and no volume yet.
pub open spec fn valid_new_match(m: MatchData) -> bool {
    &&& m.result == MatchResult::Pending
    &&& is_team(m.home_team@)
    &&& is_team(m.away_team@)
    &&& m.home_team@ != m.away_team@
    &&& odds_in_range(m.home_odds)
    &&& odds_in_range(m.away_odds)
    &&& odds_in_range(m.draw_odds)
    &&& m.home_volume == 0
    &&& m.away_volume == 0
    &&& m.draw_volume == 0
}

/// A pending match turned into a resolved one: same clubs and odds, a seed
/// recorded, and no volume taken back.
pub open spec fn valid_resolution(old: MatchData, new: MatchData) -> bool {
    &&& old.result == MatchResult::Pending
    &&& new.result != MatchResult::Pending
    &&& old.home_team@ == new.home_team@
    &&& old.away_team@ == new.away_team@
    &&& old.home_odds == new.home_odds
    &&& old.away_odds == new.away_odds
    &&& old.draw_odds == new.draw_odds
    &&& old.locked_odds == new.locked_odds
    &&& new.random_seed is Some
    &&& old.home_volume <= new.home_volume
    &&& old.away_volume <= new.away_volume
    &&& old.draw_volume <= new.draw_volume
}

pub open spec fn match_creation_ok(matches: Seq<MatchData>) -> bool {
    forall|i: int| 0 <= i < matches.len() ==> valid_new_match(#[trigger] matches[i])
}

pub open spec fn match_resolution_ok(old: Seq<MatchData>, new: Seq<MatchData>) -> bool {
    &&& old.len() == new.len()
    &&& forall|i: int| 0 <= i < old.len() ==> valid_resolution(#[trigger] old[i], new[i])
}

/// Match records of a transition: creation when only new records are
/// present, resolution when both are, nothing to check when neither is, and
/// rejection when records are only consumed.
pub open spec fn match_transition_ok(old: Seq<MatchData>, new: Seq<MatchData>) -> bool {
    if old.len() == 0 {
        match_creation_ok(new)
    } else if new.len() == 0 {
        false
    } else {
        match_resolution_ok(old, new)
    }
}

fn odds_ok(odds: u64) -> (r: bool)
    ensures
        r == odds_in_range(odds),
{
    MIN_ODDS <= odds && odds <= MAX_ODDS
}

fn check_new_match(m: &MatchData) -> (r: bool)
    ensures
        r == valid_new_match(*m),
{
    if m.result != MatchResult::Pending {
        return false;
    }
    let home = team_index(&m.home_team);
    let away = team_index(&m.away_team);
    if home.is_none() || away.is_none() {
        return false;
    }
    if m.home_team == m.away_team {
        return false;
    }
    odds_ok(m.home_odds) && odds_ok(m.away_odds) && odds_ok(m.draw_odds) && m.home_volume == 0
        && m.away_volume == 0 && m.draw_volume == 0
}

/// Accepts a batch of new matches when every one is a valid pending fixture.
pub fn validate_match_creation(matches: &Vec<MatchData>) -> (r: bool)
    ensures
        r == match_creation_ok(matches@),
{
    let mut i: usize = 0;
    while i < matches.len()
        invariant
            0 <= i <= matches@.len(),
            forall|k: int| 0 <= k < i ==> valid_new_match(#[trigger] matches@[k]),
        decreases matches@.len() - i,
    {
        if !check_new_match(&matches[i]) {
            return false;
        }
        i = i + 1;
    }
    true
}

fn has_seed(a: &Option<String>) -> (r: bool)
    ensures
        r == (*a is Some),
{
    a.is_some()
}

fn check_resolution(old: &MatchData, new: &MatchData) -> (r: bool)
    ensures
        r == valid_resolution(*old, *new),
{
    old.result == MatchResult::Pending && new.result != MatchResult::Pending && old.home_team
        == new.home_team && old.away_team == new.away_team && old.home_odds == new.home_odds
        && old.away_odds == new.away_odds && old.draw_odds == new.draw_odds && old.locked_odds
        == new.locked_odds && has_seed(&new.random_seed) && old.home_volume
        <= new.home_volume && old.away_volume <= new.away_volume && old.draw_volume
        <= new.draw_volume
}

/// Accepts the resolution of pending matches, paired by position.
pub fn validate_match_resolution(old: &Vec<MatchData>, new: &Vec<MatchData>) -> (r: bool)
    ensures
        r == match_resolution_ok(old@, new@),
{
    if old.len() != new.len() {
        return false;
    }
    let mut i: usize = 0;
    while i < old.len()
        invariant
            0 <= i <= old@.len(),
            old@.len() == new@.len(),
            forall|k: int| 0 <= k < i ==> valid_resolution(#[trigger] old@[k], new@[k]),
        decreases old@.len() - i,
    {
        if !check_resolution(&old[i], &new[i]) {
            return false;
        }
        i = i + 1;
    }
    true
}

/// Decides the match records of a transition.
pub fn validate_matches(old: &Vec<MatchData>, new: &Vec<MatchData>) -> (r: bool)
    ensures
        r == match_transition_ok(old@, new@),
{
    if old.len() == 0 {
        validate_match_creation(new)
    } else if new.len() == 0 {
        false
    } else {
        validate_match_resolution(old, new)
    }
}

/// Creating a match between a club and itself, or with a club outside the
/// roster, is rejected.
pub proof fn lemma_creation_rejects_bad_teams(matches: Seq<MatchData>, i: int)
    requires
        0 <= i < matches.len(),
        matches[i].home_team@ == matches[i].away_team@ || !is_team(matches[i].home_team@)
            || !is_team(matches[i].away_team@),
    ensures
        !match_creation_ok(matches),
        !match_transition_ok(Seq::empty(), matches),
{
    assert(!valid_new_match(matches[i]));
}

} // verus!
