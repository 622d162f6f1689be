//! Credential verifier: salted password digests and their comparison.
//!
//! The digest here is a deterministic salted mix over the password bytes;
//! it stands in for the collaborator's slow salted hash, whose storage
//! format is outside this subsystem. Verification recomputes the digest
//! under the stored salt and fails closed on any mismatch.

use vstd::prelude::*;
use vstd::string::StringSliceAdditionalSpecFns;
use crate::token::spec_mix64;

verus! {

/// A password at rest: the salt and the digest of the salted password.
#[derive(Clone, Copy, PartialEq, Eq, Structural, Debug)]
pub struct PasswordHash {
    pub salt: u64,
    pub digest: u64,
}

/// The digest of a byte string under a salt: a left fold that absorbs one
/// byte per step through the diffusion mix.
pub open spec fn spec_pw_digest(salt: u64, s: Seq<u8>) -> u64
    decreases s.len(),
{
    if s.len() == 0 {
        spec_mix64(salt)
    } else {
        spec_mix64(spec_pw_digest(salt, s.drop_last()) ^ (s.last() as u64))
    }
}

fn mix_step(acc: u64, byte: u8) -> (r: u64)
    ensures
        r == spec_mix64(acc ^ (byte as u64)),
{
    let a0 = acc ^ (byte as u64);
    let a = a0 ^ (a0 << 25u32) ^ (a0 >> 13u32);
    let b = a ^ (a << 7u32) ^ (a >> 31u32);
    b ^ (b << 17u32) ^ (b >> 3u32)
}

fn mix_seed(salt: u64) -> (r: u64)
    ensures
        r == spec_mix64(salt),
{
    let a = salt ^ (salt << 25u32) ^ (salt >> 13u32);
    let b = a ^ (a << 7u32) ^ (a >> 31u32);
    b ^ (b << 17u32) ^ (b >> 3u32)
}

fn digest_bytes(salt: u64, s: &[u8]) -> (r: u64)
    ensures
        r == spec_pw_digest(salt, s@),
{
    let mut acc = mix_seed(salt);
    let mut i: usize = 0;
    while i < s.len()
        invariant
            0 <= i <= s@.len(),
            acc == spec_pw_digest(salt, s@.subrange(0, i as int)),
        decreases s@.len() - i,
    {
        acc = mix_step(acc, s[i]);
        proof {
            assert(s@.subrange(0, i + 1 as int).drop_last() =~= s@.subrange(0, i as int));
            assert(s@.subrange(0, i + 1 as int).last() == s@[i as int]);
        }
        i = i + 1;
    }
    proof {
        assert(s@.subrange(0, s@.len() as int) =~= s@);
    }
    acc
}

/// Digest a submitted password under `salt`, for storage at rest.
pub fn hash_password(password: &str, salt: u64) -> (h: PasswordHash)
    ensures
        h.salt == salt,
        h.digest == spec_pw_digest(salt, password.spec_bytes()),
{
    let bytes = password.as_bytes();
    let digest = digest_bytes(salt, bytes);
    PasswordHash { salt, digest }
}

/// Compare a submitted password against a stored hash: true exactly when
/// the digest of the submission under the stored salt equals the stored
/// digest; any mismatch is reported as false, never as a failure.
pub fn verify_password(submitted: &str, stored: &PasswordHash) -> (r: bool)
    ensures
        r == (stored.digest == spec_pw_digest(stored.salt, submitted.spec_bytes())),
{
    let bytes = submitted.as_bytes();
    let digest = digest_bytes(stored.salt, bytes);
    digest == stored.digest
}

} // verus!
