//! Outcomes drawn from a SHA-256 digest, and identity digests.
use vstd::prelude::*;
use sha2::{Digest, Sha256};
use vstd::string::StringSliceAdditionalSpecFns;
use crate::model::MatchResult;

verus! {

/// The SHA-256 digest of a byte string.
pub uninterp spec fn sha256_of(data: Seq<u8>) -> Seq<u8>;

/// Relies on `sha2::Sha256::digest`: the 32-byte SHA-256 digest of `data`,
/// which depends on those bytes alone.
#[verifier::external_body]
fn sha256(data: &[u8]) -> (r: [u8; 32])
    ensures
        r@ == sha256_of(data@),
{
    Sha256::digest(data).into()
}

/// The first four bytes of `d` read as a big-endian unsigned integer.
pub open spec fn be_u32_prefix(d: Seq<u8>) -> int {
    d[0] as int * 16777216 + d[1] as int * 65536 + d[2] as int * 256 + d[3] as int
}

/// Outcome a digest selects: its first four bytes, big-endian, modulo 100,
/// give a home win below 45, a draw below 75 and an away win otherwise.
pub open spec fn outcome_of(d: Seq<u8>) -> MatchResult {
    let v = be_u32_prefix(d) % 100;
    if v < 45 {
        MatchResult::HomeWin
    } else if v < 75 {
        MatchResult::Draw
    } else {
        MatchResult::AwayWin
    }
}

/// Bytes hashed to draw the result of match `match_id` from `seed`.
pub open spec fn outcome_message(seed: &str, match_id: u8) -> Seq<u8> {
    seed.spec_bytes().push(match_id)
}

/// The outcome a digest selects.
pub fn match_result_from_digest(digest: &[u8; 32]) -> (r: MatchResult)
    ensures
        r == outcome_of(digest@),
        r != MatchResult::Pending,
{
    let value: u32 = digest[0] as u32 * 16777216 + digest[1] as u32 * 65536 + digest[2] as u32
        * 256 + digest[3] as u32;
    let bucket = value % 100;
    if bucket < 45 {
        MatchResult::HomeWin
    } else if bucket < 75 {
        MatchResult::Draw
    } else {
        MatchResult::AwayWin
    }
}

/// Draws the result of match `match_id` from a seed: the digest of the
/// seed's bytes followed by the match index selects the outcome. The same
/// seed and index always give the same result.
pub fn generate_match_result(random_seed: &str, match_id: u8) -> (r: MatchResult)
    ensures
        r == outcome_of(sha256_of(outcome_message(random_seed, match_id))),
        r != MatchResult::Pending,
{
    let bytes = random_seed.as_bytes();
    let mut message: Vec<u8> = Vec::new();
    let mut i: usize = 0;
    while i < bytes.len()
        invariant
            0 <= i <= bytes@.len(),
            message@ == bytes@.take(i as int),
        decreases bytes@.len() - i,
    {
        message.push(bytes[i]);
        assert(bytes@.take(i + 1) == bytes@.take(i as int).push(bytes@[i as int]));
        i = i + 1;
    }
    assert(bytes@.take(bytes@.len() as int) == bytes@);
    message.push(match_id);
    let digest = sha256(message.as_slice());
    match_result_from_digest(&digest)
}

/// The identity digest of a witness string: SHA-256 of its bytes.
pub fn identity_digest(witness: &str) -> (r: [u8; 32])
    ensures
        r@ == sha256_of(witness.spec_bytes()),
{
    sha256(witness.as_bytes())
}

} // verus!
