//! Rules for badges, the LEAGUE token, the house record and the bootstrap
//! NFT.
use vstd::prelude::*;
use std::str::FromStr;
use charms_sdk::data::UtxoId;
use crate::model::{team_at, BadgeData, HOUSE_NFT, MAX_BADGE_BONUS_BPS, TEAMS, TEAM_COUNT};
use crate::digest::{identity_digest, sha256_of};

verus! {

/// A badge names a roster club by id and name and carries a bonus in
/// `(0, MAX_BADGE_BONUS_BPS]`.
pub open spec fn valid_badge(b: BadgeData) -> bool {
    &&& b.team_id < TEAM_COUNT
    &&& b.team_name@ == team_at(b.team_id as int)
    &&& 0 < b.bonus_bps <= MAX_BADGE_BONUS_BPS
}

/// A trade keeps the club of the badge and never lowers its usage count; the
/// owner may change.
pub open spec fn valid_trade(old: BadgeData, new: BadgeData) -> bool {
    &&& old.team_id == new.team_id
    &&& old.team_name@ == new.team_name@
    &&& old.usage_count <= new.usage_count
}

/// Badges of a transition: every badge produced is valid, and when badges
/// are both consumed and produced they pair up by position as trades.
pub open spec fn badge_transition_ok(old: Seq<BadgeData>, new: Seq<BadgeData>) -> bool {
    &&& forall|i: int| 0 <= i < new.len() ==> valid_badge(#[trigger] new[i])
    &&& (old.len() == 0 || new.len() == 0 || (old.len() == new.len() && forall|i: int|
        0 <= i < old.len() ==> valid_trade(#[trigger] old[i], new[i])))
}

fn check_badge(b: &BadgeData) -> (r: bool)
    ensures
        r == valid_badge(*b),
{
    if b.team_id as usize >= TEAM_COUNT {
        return false;
    }
    let name = TEAMS[b.team_id as usize].to_owned();
    name == b.team_name && 0 < b.bonus_bps && b.bonus_bps <= MAX_BADGE_BONUS_BPS
}

/// Decides the badges of a transition.
pub fn validate_badges(old: &Vec<BadgeData>, new: &Vec<BadgeData>) -> (r: bool)
    ensures
        r == badge_transition_ok(old@, new@),
{
    let mut i: usize = 0;
    while i < new.len()
        invariant
            0 <= i <= new@.len(),
            forall|k: int| 0 <= k < i ==> valid_badge(#[trigger] new@[k]),
        decreases new@.len() - i,
    {
        if !check_badge(&new[i]) {
            return false;
        }
        i = i + 1;
    }
    if old.len() == 0 || new.len() == 0 {
        return true;
    }
    if old.len() != new.len() {
        return false;
    }
    let mut j: usize = 0;
    while j < old.len()
        invariant
            0 <= j <= old@.len(),
            old@.len() == new@.len(),
            forall|k: int| 0 <= k < j ==> valid_trade(#[trigger] old@[k], new@[k]),
        decreases old@.len() - j,
    {
        let a = &old[j];
        let b = &new[j];
        if a.team_id != b.team_id || a.team_name != b.team_name || a.usage_count > b.usage_count {
            return false;
        }
        j = j + 1;
    }
    true
}

/// Sum of a sequence of amounts.
pub open spec fn total_of(amounts: Seq<u64>) -> int
    decreases amounts.len(),
{
    if amounts.len() == 0 {
        0
    } else {
        total_of(amounts.drop_last()) + amounts.last()
    }
}

/// A house record is among the consumed charms, given by their tags.
pub open spec fn house_among(input_tags: Seq<char>) -> bool {
    exists|i: int| 0 <= i < input_tags.len() && #[trigger] input_tags[i] == HOUSE_NFT
}

/// Token amounts may only shrink (the difference is burnt) unless a house
/// record among the inputs authorises the transition, in which case tokens
/// may be minted.
pub open spec fn token_transition_ok(ins: Seq<u64>, outs: Seq<u64>, input_tags: Seq<char>) -> bool {
    total_of(outs) <= total_of(ins) || house_among(input_tags)
}

/// Sum of the amounts, which cannot overflow `u128`.
pub fn total_amount(amounts: &Vec<u64>) -> (r: u128)
    ensures
        r == total_of(amounts@),
{
    let mut sum: u128 = 0;
    let mut i: usize = 0;
    while i < amounts.len()
        invariant
            0 <= i <= amounts@.len(),
            sum == total_of(amounts@.take(i as int)),
            sum <= i * (u64::MAX as int),
        decreases amounts@.len() - i,
    {
        assert(amounts@.take(i + 1).drop_last() == amounts@.take(i as int));
        sum = sum + amounts[i] as u128;
        i = i + 1;
    }
    assert(amounts@.take(amounts@.len() as int) == amounts@);
    sum
}

fn has_house(input_tags: &Vec<char>) -> (r: bool)
    ensures
        r == house_among(input_tags@),
{
    let mut i: usize = 0;
    while i < input_tags.len()
        invariant
            0 <= i <= input_tags@.len(),
            forall|k: int| 0 <= k < i ==> #[trigger] input_tags@[k] != HOUSE_NFT,
        decreases input_tags@.len() - i,
    {
        if input_tags[i] == HOUSE_NFT {
            assert(input_tags@[i as int] == HOUSE_NFT);
            return true;
        }
        i = i + 1;
    }
    false
}

/// Decides the LEAGUE token amounts of a transition; `input_tags` are the
/// asset tags of every charm the transaction consumes.
pub fn validate_token(ins: &Vec<u64>, outs: &Vec<u64>, input_tags: &Vec<char>) -> (r: bool)
    ensures
        r == token_transition_ok(ins@, outs@, input_tags@),
{
    total_amount(outs) <= total_amount(ins) || has_house(input_tags)
}

/// The house record authorises administrative transitions; it sets no rule
/// of its own on them.
pub fn validate_house() -> (r: bool)
    ensures
        r,
{
    true
}

/// A transaction output: the id of the transaction that made it and its
/// index there.
#[derive(Debug, Clone, Copy, PartialEq, Eq)]
pub struct UtxoRef {
    pub txid: [u8; 32],
    pub vout: u32,
}

/// The output a `txid_hex:index` string names, if it is well formed.
pub uninterp spec fn utxo_of(s: Seq<char>) -> Option<UtxoRef>;

/// Relies on `charms_data::UtxoId::from_str`, which parses the
/// `txid_hex:index` form and depends on the text alone.
#[verifier::external_body]
fn parse_utxo(s: &str) -> (r: Option<UtxoRef>)
    ensures
        r == utxo_of(s@),
{
    match UtxoId::from_str(s) {
        Ok(u) => Some(UtxoRef { txid: u.0.0, vout: u.1 }),
        Err(_) => None,
    }
}

/// Both name the same output.
pub open spec fn same_utxo(a: UtxoRef, b: UtxoRef) -> bool {
    a.txid@ == b.txid@ && a.vout == b.vout
}

/// The bootstrap NFT is minted with a witness string whose digest is the
/// asset's identity and which names an output spent by the transaction.
pub open spec fn bootstrap_ok(witness: Option<String>, identity: Seq<u8>, spent: Seq<UtxoRef>) -> bool {
    match witness {
        Some(w) => {
            &&& sha256_of(vstd::utf8::encode_utf8(w@)) == identity
            &&& utxo_of(w@) matches Some(u) && exists|k: int|
                0 <= k < spent.len() && same_utxo(#[trigger] spent[k], u)
        },
        None => false,
    }
}

fn bytes_equal(a: &[u8; 32], b: &[u8; 32]) -> (r: bool)
    ensures
        r == (a@ == b@),
{
    let mut i: usize = 0;
    while i < 32
        invariant
            0 <= i <= 32,
            a@.len() == 32,
            b@.len() == 32,
            forall|k: int| 0 <= k < i ==> a@[k] == b@[k],
        decreases 32 - i,
    {
        if a[i] != b[i] {
            return false;
        }
        i = i + 1;
    }
    assert(a@ == b@);
    true
}

fn spends(spent: &Vec<UtxoRef>, u: &UtxoRef) -> (r: bool)
    ensures
        r == exists|k: int| 0 <= k < spent@.len() && same_utxo(#[trigger] spent@[k], *u),
{
    let mut i: usize = 0;
    while i < spent.len()
        invariant
            0 <= i <= spent@.len(),
            forall|k: int| 0 <= k < i ==> !same_utxo(#[trigger] spent@[k], *u),
        decreases spent@.len() - i,
    {
        if bytes_equal(&spent[i].txid, &u.txid) && spent[i].vout == u.vout {
            assert(same_utxo(spent@[i as int], *u));
            return true;
        }
        i = i + 1;
    }
    false
}

/// Decides the minting of the bootstrap NFT: `witness` is the decoded
/// witness string, `identity` the asset's identity and `spent` the outputs
/// the transaction spends.
pub fn validate_bootstrap(witness: &Option<String>, identity: &[u8; 32], spent: &Vec<UtxoRef>) -> (r: bool)
    ensures
        r == bootstrap_ok(*witness, identity@, spent@),
{
    match witness {
        Some(w) => {
            let digest = identity_digest(w.as_str());
            if !bytes_equal(&digest, identity) {
                return false;
            }
            match parse_utxo(w.as_str()) {
                Some(u) => spends(spent, &u),
                None => false,
            }
        },
        None => false,
    }
}

} // verus!
