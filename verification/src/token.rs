//! Token issuer: mints and verifies stateless access tokens.
//!
//! An access token is a 32-byte value: the claims {subject, issued-at,
//! expiry}, each as eight little-endian bytes, followed by an eight-byte
//! authentication tag derived from the claims and a process-wide signing
//! key. Verification is a pure function of the bytes, the key and the
//! current time; nothing is persisted.

use vstd::prelude::*;
use vstd::bytes::{spec_u64_to_le_bytes, spec_u64_from_le_bytes, u64_to_le_bytes, u64_from_le_bytes, lemma_auto_spec_u64_to_from_le_bytes};
use vstd::slice::slice_subrange;
use crate::ACCESS_TTL_SECONDS;

verus! {

/// The claim set carried by an access token.
#[derive(Clone, Copy, PartialEq, Eq, Structural, Debug)]
pub struct AccessClaims {
    /// Subject: the authenticated user's id.
    pub sub: u64,
    /// Issued-at, seconds since the Unix epoch.
    pub iat: u64,
    /// Expiry, seconds since the Unix epoch; the token is live while `now < exp`.
    pub exp: u64,
}

/// Why an access token was rejected.
#[derive(Clone, Copy, PartialEq, Eq, Structural, Debug)]
pub enum TokenError {
    /// The bytes do not parse as a token.
    Malformed,
    /// The tag does not match the claims under the verifier's key.
    SignatureInvalid,
    /// The claims are authentic but the expiry has passed.
    Expired,
}

/// Diffusion step of the tag function: an invertible mix of the bits of one word.
pub open spec fn spec_mix64(x: u64) -> u64 {
    let a = x ^ (x << 25) ^ (x >> 13);
    let b = a ^ (a << 7) ^ (a >> 31);
    b ^ (b << 17) ^ (b >> 3)
}

/// Authentication tag over a claim set: each claim word is blinded with a
/// key-dependent constant, diffused, and the results combined.
pub open spec fn spec_tag(c: AccessClaims, key: u64) -> u64 {
    spec_mix64(c.sub ^ spec_mix64(key ^ 0x9e3779b97f4a7c15))
        ^ spec_mix64(c.iat ^ spec_mix64(key ^ 0x6a09e667f3bcc908))
        ^ spec_mix64(c.exp ^ spec_mix64(key ^ 0xbb67ae8584caa73b))
}

/// The serialized form of a token: claims then tag, little-endian words.
pub open spec fn spec_token_bytes(c: AccessClaims, key: u64) -> Seq<u8> {
    spec_u64_to_le_bytes(c.sub) + spec_u64_to_le_bytes(c.iat)
        + spec_u64_to_le_bytes(c.exp) + spec_u64_to_le_bytes(spec_tag(c, key))
}

/// What a 32-byte token parses to: the claims and the transmitted tag.
/// Any other length is malformed.
pub open spec fn spec_decode(s: Seq<u8>) -> Option<(AccessClaims, u64)> {
    if s.len() == 32 {
        Some((
            AccessClaims {
                sub: spec_u64_from_le_bytes(s.subrange(0, 8)),
                iat: spec_u64_from_le_bytes(s.subrange(8, 16)),
                exp: spec_u64_from_le_bytes(s.subrange(16, 24)),
            },
            spec_u64_from_le_bytes(s.subrange(24, 32)),
        ))
    } else {
        None
    }
}

/// The outcome verification owes for given token bytes, key and time:
/// reject unparseable bytes as malformed, a wrong tag as a bad signature,
/// a passed expiry as expired; otherwise accept with the subject.
pub open spec fn spec_verify_token(s: Seq<u8>, key: u64, now: u64) -> Result<u64, TokenError> {
    match spec_decode(s) {
        Option::None => Result::Err(TokenError::Malformed),
        Option::Some(parsed) => {
            let (c, sent_tag) = parsed;
            if sent_tag != spec_tag(c, key) {
                Result::Err(TokenError::SignatureInvalid)
            } else if now >= c.exp {
                Result::Err(TokenError::Expired)
            } else {
                Result::Ok(c.sub)
            }
        },
    }
}

fn mix64(x: u64) -> (r: u64)
    ensures
        r == spec_mix64(x),
{
    let a = x ^ (x << 25u32) ^ (x >> 13u32);
    let b = a ^ (a << 7u32) ^ (a >> 31u32);
    b ^ (b << 17u32) ^ (b >> 3u32)
}

fn tag_of(c: &AccessClaims, key: u64) -> (r: u64)
    ensures
        r == spec_tag(*c, key),
{
    mix64(c.sub ^ mix64(key ^ 0x9e3779b97f4a7c15))
        ^ mix64(c.iat ^ mix64(key ^ 0x6a09e667f3bcc908))
        ^ mix64(c.exp ^ mix64(key ^ 0xbb67ae8584caa73b))
}

/// Serialize and sign a claim set under `key`.
pub fn encode_access_token(c: &AccessClaims, key: u64) -> (t: Vec<u8>)
    ensures
        t@ == spec_token_bytes(*c, key),
{
    let tag = tag_of(c, key);
    let mut t = u64_to_le_bytes(c.sub);
    let mut iat = u64_to_le_bytes(c.iat);
    let mut exp = u64_to_le_bytes(c.exp);
    let mut tagb = u64_to_le_bytes(tag);
    t.append(&mut iat);
    t.append(&mut exp);
    t.append(&mut tagb);
    proof {
        assert(t@ =~= spec_token_bytes(*c, key));
    }
    t
}

/// Mint an access token for `user_id` at time `now`: the claims are
/// {sub = user_id, iat = now, exp = now + ACCESS_TTL_SECONDS}.
pub fn issue_access_token(user_id: u64, now: u64, key: u64) -> (t: Vec<u8>)
    requires
        now + ACCESS_TTL_SECONDS <= u64::MAX,
    ensures
        t@ == spec_token_bytes(
            AccessClaims { sub: user_id, iat: now, exp: (now + ACCESS_TTL_SECONDS) as u64 },
            key,
        ),
{
    let c = AccessClaims { sub: user_id, iat: now, exp: now + ACCESS_TTL_SECONDS };
    encode_access_token(&c, key)
}

/// Verify a presented token against the signing key at time `now`.
///
/// Succeeds exactly when the bytes parse, the recomputed tag equals the
/// transmitted tag, and the expiry lies in the future; returns the subject.
pub fn verify_access_token(t: &Vec<u8>, key: u64, now: u64) -> (r: Result<u64, TokenError>)
    ensures
        r == spec_verify_token(t@, key, now),
{
    if t.len() != 32 {
        return Err(TokenError::Malformed);
    }
    let sub = u64_from_le_bytes(slice_subrange(t.as_slice(), 0, 8));
    let iat = u64_from_le_bytes(slice_subrange(t.as_slice(), 8, 16));
    let exp = u64_from_le_bytes(slice_subrange(t.as_slice(), 16, 24));
    let sent_tag = u64_from_le_bytes(slice_subrange(t.as_slice(), 24, 32));
    let c = AccessClaims { sub, iat, exp };
    let expected = tag_of(&c, key);
    if sent_tag != expected {
        Err(TokenError::SignatureInvalid)
    } else if now >= c.exp {
        Err(TokenError::Expired)
    } else {
        Ok(c.sub)
    }
}

/// A minted token parses back to exactly the claims it was minted from,
/// with the tag the verifier will recompute: verification of an authentic
/// token can fail only by expiry.
pub proof fn lemma_token_round_trip(c: AccessClaims, key: u64)
    ensures
        spec_decode(spec_token_bytes(c, key)) == Some((c, spec_tag(c, key))),
{
    lemma_auto_spec_u64_to_from_le_bytes();
    let s = spec_token_bytes(c, key);
    assert(s.subrange(0, 8) =~= spec_u64_to_le_bytes(c.sub));
    assert(s.subrange(8, 16) =~= spec_u64_to_le_bytes(c.iat));
    assert(s.subrange(16, 24) =~= spec_u64_to_le_bytes(c.exp));
    assert(s.subrange(24, 32) =~= spec_u64_to_le_bytes(spec_tag(c, key)));
}

/// Access tokens are stateless: verifying a token minted from claims `c`
/// under `key` depends on nothing but the bytes, the key and the clock —
/// it succeeds, yielding exactly the subject, if and only if `now < c.exp`,
/// and otherwise reports expiry.
pub proof fn lemma_access_token_stateless(c: AccessClaims, key: u64, now: u64)
    ensures
        now < c.exp ==> spec_verify_token(spec_token_bytes(c, key), key, now)
            == Result::<u64, TokenError>::Ok(c.sub),
        now >= c.exp ==> spec_verify_token(spec_token_bytes(c, key), key, now)
            == Result::<u64, TokenError>::Err(TokenError::Expired),
{
    lemma_token_round_trip(c, key);
}

/// A forged or damaged token never verifies as some honest claim set's
/// subject under a different tag: if the transmitted tag is not the tag of
/// the parsed claims under the key, verification reports a bad signature.
pub proof fn lemma_tag_mismatch_rejected(s: Seq<u8>, key: u64, now: u64)
    requires
        spec_decode(s) is Some,
        spec_decode(s).unwrap().1 != spec_tag(spec_decode(s).unwrap().0, key),
    ensures
        spec_verify_token(s, key, now) == Result::<u64, TokenError>::Err(TokenError::SignatureInvalid),
{
}

} // verus!
