//! Rules for season records: creation, turn-by-turn updates and the final
//! standings.
use vstd::prelude::*;
use crate::model::{SeasonData, TEAM_COUNT, TURNS_PER_SEASON};

verus! {

/// Team `w` has the highest score, and no team with a lower id has as many
/// points: ties go to the lowest team id.
pub open spec fn is_champion(scores: Seq<u32>, w: int) -> bool {
    &&& 0 <= w < scores.len()
    &&& forall|j: int| 0 <= j < scores.len() ==> #[trigger] scores[j] <= scores[w]
    &&& forall|j: int| 0 <= j < w ==> #[trigger] scores[j] < scores[w]
}

/// A season as created: first turn, no points, nothing collected, open.
pub open spec fn valid_new_season(s: SeasonData) -> bool {
    &&& s.current_turn == 0
    &&& forall|i: int| 0 <= i < TEAM_COUNT ==> #[trigger] s.team_scores@[i] == 0
    &&& s.total_bets_collected == 0
    &&& s.season_pool == 0
    &&& !s.is_finished
    &&& s.winner is None
}

/// One step of a season. While open, the turn advances by at most one and
/// never past the season length, the collected bets and the pool never
/// shrink, the last turn closes the season, and a closed season names the
/// champion. Once closed, the turn and the closed flag stay as they are.
pub open spec fn valid_season_update(old: SeasonData, new: SeasonData) -> bool {
    &&& old.season_id@ == new.season_id@
    &&& if !old.is_finished {
        &&& old.current_turn <= new.current_turn <= old.current_turn + 1
        &&& new.current_turn <= TURNS_PER_SEASON
        &&& old.total_bets_collected <= new.total_bets_collected
        &&& old.season_pool <= new.season_pool
        &&& new.current_turn >= TURNS_PER_SEASON ==> new.is_finished
        &&& new.is_finished ==> (new.winner matches Some(w) && is_champion(
            new.team_scores@,
            w as int,
        ))
    } else {
        new.current_turn == old.current_turn && new.is_finished
    }
}

pub open spec fn season_creation_ok(seasons: Seq<SeasonData>) -> bool {
    forall|i: int| 0 <= i < seasons.len() ==> valid_new_season(#[trigger] seasons[i])
}

pub open spec fn season_update_ok(old: Seq<SeasonData>, new: Seq<SeasonData>) -> bool {
    &&& old.len() == new.len()
    &&& forall|i: int| 0 <= i < old.len() ==> valid_season_update(#[trigger] old[i], new[i])
}

/// Season records of a transition: creation when only new records are
/// present, update when both are.
pub open spec fn season_transition_ok(old: Seq<SeasonData>, new: Seq<SeasonData>) -> bool {
    if old.len() == 0 {
        season_creation_ok(new)
    } else if new.len() == 0 {
        true
    } else {
        season_update_ok(old, new)
    }
}

/// The champion of a table of scores: the lowest team id among those with
/// the most points.
pub fn champion(scores: &[u32; 20]) -> (r: usize)
    ensures
        is_champion(scores@, r as int),
{
    let mut best: usize = 0;
    let mut i: usize = 1;
    while i < TEAM_COUNT
        invariant
            1 <= i <= TEAM_COUNT,
            scores@.len() == TEAM_COUNT,
            best < i,
            forall|j: int| 0 <= j < i ==> #[trigger] scores@[j] <= scores@[best as int],
            forall|j: int| 0 <= j < best ==> #[trigger] scores@[j] < scores@[best as int],
        decreases TEAM_COUNT - i,
    {
        if scores[i] > scores[best] {
            best = i;
        }
        i = i + 1;
    }
    best
}

fn check_new_season(s: &SeasonData) -> (r: bool)
    ensures
        r == valid_new_season(*s),
{
    if s.current_turn != 0 || s.total_bets_collected != 0 || s.season_pool != 0 || s.is_finished
        || s.winner.is_some() {
        return false;
    }
    let mut i: usize = 0;
    while i < TEAM_COUNT
        invariant
            0 <= i <= TEAM_COUNT,
            s.team_scores@.len() == TEAM_COUNT,
            forall|k: int| 0 <= k < i ==> #[trigger] s.team_scores@[k] == 0,
        decreases TEAM_COUNT - i,
    {
        if s.team_scores[i] != 0 {
            return false;
        }
        i = i + 1;
    }
    true
}

fn names_champion(s: &SeasonData) -> (r: bool)
    ensures
        r == (s.winner matches Some(w) && is_champion(s.team_scores@, w as int)),
{
    match s.winner {
        Some(w) => {
            let c = champion(&s.team_scores);
            if w as usize == c {
                true
            } else {
                proof {
                    if is_champion(s.team_scores@, w as int) {
                        lemma_champion_unique(s.team_scores@, w as int, c as int);
                    }
                }
                false
            }
        },
        None => false,
    }
}

proof fn lemma_champion_unique(scores: Seq<u32>, a: int, b: int)
    requires
        is_champion(scores, a),
        is_champion(scores, b),
    ensures
        a == b,
{
    if a < b {
        assert(scores[a] < scores[b]);
        assert(scores[b] <= scores[a]);
    } else if b < a {
        assert(scores[b] < scores[a]);
        assert(scores[a] <= scores[b]);
    }
}

fn check_season_update(old: &SeasonData, new: &SeasonData) -> (r: bool)
    ensures
        r == valid_season_update(*old, *new),
{
    if old.season_id != new.season_id {
        return false;
    }
    if !old.is_finished {
        if new.current_turn < old.current_turn || new.current_turn as u64 > old.current_turn
            as u64 + 1 || new.current_turn > TURNS_PER_SEASON {
            return false;
        }
        if new.total_bets_collected < old.total_bets_collected || new.season_pool
            < old.season_pool {
            return false;
        }
        if new.current_turn >= TURNS_PER_SEASON && !new.is_finished {
            return false;
        }
        if new.is_finished {
            return names_champion(new);
        }
        true
    } else {
        new.current_turn == old.current_turn && new.is_finished
    }
}

/// Accepts newly created seasons.
pub fn validate_season_creation(seasons: &Vec<SeasonData>) -> (r: bool)
    ensures
        r == season_creation_ok(seasons@),
{
    let mut i: usize = 0;
    while i < seasons.len()
        invariant
            0 <= i <= seasons@.len(),
            forall|k: int| 0 <= k < i ==> valid_new_season(#[trigger] seasons@[k]),
        decreases seasons@.len() - i,
    {
        if !check_new_season(&seasons[i]) {
            return false;
        }
        i = i + 1;
    }
    true
}

/// Accepts updates of seasons, paired by position.
pub fn validate_season_update(old: &Vec<SeasonData>, new: &Vec<SeasonData>) -> (r: bool)
    ensures
        r == season_update_ok(old@, new@),
{
    if old.len() != new.len() {
        return false;
    }
    let mut i: usize = 0;
    while i < old.len()
        invariant
            0 <= i <= old@.len(),
            old@.len() == new@.len(),
            forall|k: int| 0 <= k < i ==> valid_season_update(#[trigger] old@[k], new@[k]),
        decreases old@.len() - i,
    {
        if !check_season_update(&old[i], &new[i]) {
            return false;
        }
        i = i + 1;
    }
    true
}

/// Decides the season records of a transition.
pub fn validate_seasons(old: &Vec<SeasonData>, new: &Vec<SeasonData>) -> (r: bool)
    ensures
        r == season_transition_ok(old@, new@),
{
    if old.len() == 0 {
        validate_season_creation(new)
    } else if new.len() == 0 {
        true
    } else {
        validate_season_update(old, new)
    }
}

/// When an accepted update brings a season to its last turn, the season is
/// finished and its winner has the highest score of the table.
pub proof fn lemma_last_turn_finishes_season(old: SeasonData, new: SeasonData)
    requires
        valid_season_update(old, new),
        !old.is_finished,
        new.current_turn == TURNS_PER_SEASON,
    ensures
        new.is_finished,
        new.winner matches Some(w) && w < TEAM_COUNT && forall|j: int|
            0 <= j < TEAM_COUNT ==> #[trigger] new.team_scores@[j] <= new.team_scores@[w as int],
{
}

/// A run of seasons in which each record is an accepted update of the one
/// before.
pub open spec fn season_history_ok(history: Seq<SeasonData>) -> bool {
    forall|i: int|
        0 <= i < history.len() - 1 ==> valid_season_update(#[trigger] history[i], history[i + 1])
}

/// Once a season is finished, every later accepted update keeps it finished
/// at the same turn.
pub proof fn lemma_finished_season_is_frozen(history: Seq<SeasonData>, k: int, j: int)
    requires
        season_history_ok(history),
        0 <= k <= j < history.len(),
        history[k].is_finished,
    ensures
        history[j].is_finished,
        history[j].current_turn == history[k].current_turn,
    decreases j - k,
{
    if j > k {
        lemma_finished_season_is_frozen(history, k, j - 1);
        assert(valid_season_update(history[j - 1], history[j]));
    }
}

} // verus!
