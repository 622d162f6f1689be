//! Refresh token store: the single source of truth for rotation state.
//!
//! Records live in an arena indexed by token id; rotation links a record to
//! its successor by id, forming a chain whose members all share the id of
//! the chain's first record. Redemption is single-use: it revokes the
//! redeemed record and appends its successor in one step. Redeeming a
//! record that is already revoked is a reuse signal and revokes the whole
//! chain. At most one record per chain is ever unrevoked.

use vstd::prelude::*;
use crate::token::spec_mix64;

verus! {

/// The opaque secret a client holds for one refresh token: the record's id
/// and 128 bits of entropy. Only a digest of the entropy is stored.
#[derive(Clone, Copy, PartialEq, Eq, Structural, Debug)]
pub struct RefreshSecret {
    pub token_id: u64,
    pub hi: u64,
    pub lo: u64,
}

/// One refresh token record at rest.
#[derive(Clone, Copy, Debug)]
pub struct RefreshRecord {
    /// The user the token was issued to.
    pub user_id: u64,
    /// Digest of the secret entropy; the entropy itself is never stored.
    pub secret_hash: u64,
    /// Issue time, seconds since the Unix epoch.
    pub issued_at: u64,
    /// Expiry; the record is redeemable only while `now < expires_at`.
    pub expires_at: u64,
    /// Set once the record is rotated out, revoked, or caught up in a
    /// chain revocation; never cleared.
    pub revoked: bool,
    /// The record this one replaced, if it was minted by a rotation.
    pub predecessor: Option<u64>,
    /// The record that replaced this one, if it was ever redeemed.
    pub replaced_by: Option<u64>,
    /// Id of the first record of this record's rotation chain.
    pub chain_root: u64,
}

/// Why a redemption was refused.
#[derive(Clone, Copy, PartialEq, Eq, Structural, Debug)]
pub enum RedeemError {
    /// No record carries the presented id and secret digest.
    NotFound,
    /// The record exists but its expiry has passed.
    Expired,
    /// The record was already rotated out or revoked: a reuse signal.
    /// The whole chain has been revoked in response.
    Revoked,
}

/// Digest under which a secret's entropy is stored at rest.
pub open spec fn spec_secret_hash(hi: u64, lo: u64) -> u64 {
    spec_mix64(hi ^ spec_mix64(lo ^ 0x243f6a8885a308d3))
}

/// Structural soundness of one record's chain links: the root is at or
/// before the record and is its own root; a predecessor lies strictly
/// earlier, shares the root, and points back; a successor lies strictly
/// later, shares the root, and points back; an unrevoked record has no
/// successor.
pub open spec fn record_ok(s: Seq<RefreshRecord>, i: int) -> bool {
    let r = s[i];
    &&& r.chain_root as int <= i
    &&& s[r.chain_root as int].chain_root == r.chain_root
    &&& match r.predecessor {
        Option::None => r.chain_root as int == i,
        Option::Some(p) => {
            &&& (p as int) < i
            &&& s[p as int].chain_root == r.chain_root
            &&& s[p as int].replaced_by == Option::Some(i as u64)
        },
    }
    &&& match r.replaced_by {
        Option::None => true,
        Option::Some(n) => {
            &&& i < n as int
            &&& (n as int) < s.len()
            &&& s[n as int].predecessor == Option::Some(i as u64)
            &&& s[n as int].chain_root == r.chain_root
        },
    }
    &&& (!r.revoked ==> r.replaced_by is None)
}

/// Well-formedness of the whole arena: every record's links are sound and
/// no two records of one chain are both unrevoked — at most one entry per
/// chain is ever live for redemption.
pub open spec fn store_wf(s: Seq<RefreshRecord>) -> bool {
    &&& s.len() <= u64::MAX
    &&& forall|i: int| 0 <= i < s.len() ==> record_ok(s, i)
    &&& forall|i: int, j: int|
        0 <= i < s.len() && 0 <= j < s.len() && i != j && s[i].chain_root == s[j].chain_root
            ==> s[i].revoked || s[j].revoked
}

/// Whether a presented secret designates a record: its id is in range and
/// the stored digest matches the digest of its entropy.
pub open spec fn spec_lookup_matches(s: Seq<RefreshRecord>, sec: RefreshSecret) -> bool {
    &&& (sec.token_id as int) < s.len()
    &&& s[sec.token_id as int].secret_hash == spec_secret_hash(sec.hi, sec.lo)
}

/// A record with its revoked flag set and everything else unchanged.
pub open spec fn spec_revoke_one(r: RefreshRecord) -> RefreshRecord {
    RefreshRecord { revoked: true, ..r }
}

/// The arena after revoking every member of the chain rooted at `root`.
pub open spec fn spec_chain_revoked(s: Seq<RefreshRecord>, root: u64) -> Seq<RefreshRecord> {
    Seq::new(s.len(), |i: int| if s[i].chain_root == root { spec_revoke_one(s[i]) } else { s[i] })
}

/// The arena after revoking every record issued to `user_id`.
pub open spec fn spec_user_revoked(s: Seq<RefreshRecord>, user_id: u64) -> Seq<RefreshRecord> {
    Seq::new(s.len(), |i: int| if s[i].user_id == user_id { spec_revoke_one(s[i]) } else { s[i] })
}

/// A fresh record opening a new chain: unrevoked, unlinked, its own root.
pub open spec fn spec_fresh_record(user_id: u64, hash: u64, now: u64, ttl: u64, id: u64) -> RefreshRecord {
    RefreshRecord {
        user_id,
        secret_hash: hash,
        issued_at: now,
        expires_at: (now + ttl) as u64,
        revoked: false,
        predecessor: Option::None,
        replaced_by: Option::None,
        chain_root: id,
    }
}

/// The arena after a successful redemption of record `id`: the record is
/// revoked and linked forward, and its successor — same user, same chain,
/// fresh digest and expiry — is appended, all in one step.
pub open spec fn spec_rotated(s: Seq<RefreshRecord>, id: int, new_hash: u64, now: u64, ttl: u64) -> Seq<RefreshRecord> {
    let old_rec = s[id];
    let retired = RefreshRecord { revoked: true, replaced_by: Option::Some(s.len() as u64), ..old_rec };
    let successor = RefreshRecord {
        user_id: old_rec.user_id,
        secret_hash: new_hash,
        issued_at: now,
        expires_at: (now + ttl) as u64,
        revoked: false,
        predecessor: Option::Some(id as u64),
        replaced_by: Option::None,
        chain_root: old_rec.chain_root,
    };
    s.update(id, retired).push(successor)
}

fn secret_hash(hi: u64, lo: u64) -> (r: u64)
    ensures
        r == spec_secret_hash(hi, lo),
{
    let x = lo ^ 0x243f6a8885a308d3;
    let a = x ^ (x << 25u32) ^ (x >> 13u32);
    let b = a ^ (a << 7u32) ^ (a >> 31u32);
    let inner = b ^ (b << 17u32) ^ (b >> 3u32);
    let y = hi ^ inner;
    let c = y ^ (y << 25u32) ^ (y >> 13u32);
    let d = c ^ (c << 7u32) ^ (c >> 31u32);
    d ^ (d << 17u32) ^ (d >> 3u32)
}

/// The arena of refresh token records.
pub struct RefreshTokenStore {
    pub records: Vec<RefreshRecord>,
}

impl RefreshTokenStore {
    /// Whether this store is well formed; every operation preserves it.
    pub open spec fn wf(&self) -> bool {
        store_wf(self.records@)
    }

    /// An empty store.
    pub fn new() -> (s: RefreshTokenStore)
        ensures
            s.wf(),
            s.records@.len() == 0,
    {
        RefreshTokenStore { records: Vec::new() }
    }

    /// Open a fresh rotation chain for `user_id`: append an unrevoked,
    /// unlinked record expiring at `now + ttl` and return the secret that
    /// redeems it.
    pub fn mint(&mut self, user_id: u64, entropy_hi: u64, entropy_lo: u64, now: u64, ttl: u64) -> (sec: RefreshSecret)
        requires
            old(self).wf(),
            old(self).records@.len() < u64::MAX,
            now + ttl <= u64::MAX,
        ensures
            final(self).wf(),
            sec.token_id == old(self).records@.len(),
            sec.hi == entropy_hi,
            sec.lo == entropy_lo,
            final(self).records@ == old(self).records@.push(
                spec_fresh_record(user_id, spec_secret_hash(entropy_hi, entropy_lo), now, ttl,
                    old(self).records@.len() as u64)),
            spec_lookup_matches(final(self).records@, sec),
    {
        let id = self.records.len() as u64;
        let hash = secret_hash(entropy_hi, entropy_lo);
        let rec = RefreshRecord {
            user_id,
            secret_hash: hash,
            issued_at: now,
            expires_at: now + ttl,
            revoked: false,
            predecessor: None,
            replaced_by: None,
            chain_root: id,
        };
        self.records.push(rec);
        proof {
            let s0 = old(self).records@;
            let s1 = self.records@;
            assert forall|i: int| 0 <= i < s1.len() implies record_ok(s1, i) by {
                if i < s0.len() {
                    assert(record_ok(s0, i));
                }
            }
            assert forall|i: int, j: int|
                0 <= i < s1.len() && 0 <= j < s1.len() && i != j && s1[i].chain_root == s1[j].chain_root
                implies s1[i].revoked || s1[j].revoked by {
                if i < s0.len() && j < s0.len() {
                    assert(s0[i].chain_root == s1[i].chain_root && s0[j].chain_root == s1[j].chain_root);
                } else if i < s0.len() {
                    assert(record_ok(s0, i));
                } else {
                    assert(record_ok(s0, j));
                }
            }
        }
        RefreshSecret { token_id: id, hi: entropy_hi, lo: entropy_lo }
    }

    /// Revoke every member of the chain rooted at `root`.
    fn revoke_chain_rooted(&mut self, root: u64)
        requires
            old(self).wf(),
        ensures
            final(self).wf(),
            final(self).records@ == spec_chain_revoked(old(self).records@, root),
    {
        let ghost s0 = self.records@;
        let n = self.records.len();
        let mut i: usize = 0;
        while i < n
            invariant
                n == s0.len(),
                self.records@.len() == n,
                0 <= i <= n,
                forall|j: int| 0 <= j < i ==> self.records@[j] == spec_chain_revoked(s0, root)[j],
                forall|j: int| i <= j < n ==> self.records@[j] == s0[j],
            decreases n - i,
        {
            if self.records[i].chain_root == root {
                let mut r = self.records[i];
                r.revoked = true;
                self.records[i] = r;
            }
            i = i + 1;
        }
        proof {
            assert(self.records@ =~= spec_chain_revoked(s0, root));
            let s1 = self.records@;
            assert forall|j: int| 0 <= j < s1.len() implies record_ok(s1, j) by {
                assert(record_ok(s0, j));
            }
        }
    }

    /// Idempotently revoke the single record `token_id`; an unknown id
    /// changes nothing.
    pub fn revoke(&mut self, token_id: u64)
        requires
            old(self).wf(),
        ensures
            final(self).wf(),
            (token_id as int) < old(self).records@.len() ==> final(self).records@
                == old(self).records@.update(token_id as int, spec_revoke_one(old(self).records@[token_id as int])),
            (token_id as int) >= old(self).records@.len() ==> final(self).records@ == old(self).records@,
    {
        if token_id < self.records.len() as u64 {
            let idx = token_id as usize;
            let mut r = self.records[idx];
            r.revoked = true;
            self.records[idx] = r;
            proof {
                let s0 = old(self).records@;
                let s1 = self.records@;
                assert forall|j: int| 0 <= j < s1.len() implies record_ok(s1, j) by {
                    assert(record_ok(s0, j));
                }
            }
        }
    }

    /// Revoke the whole chain that `token_id` belongs to — used by logout
    /// and by reuse detection. An unknown id changes nothing.
    pub fn revoke_chain(&mut self, token_id: u64)
        requires
            old(self).wf(),
        ensures
            final(self).wf(),
            (token_id as int) < old(self).records@.len() ==> final(self).records@
                == spec_chain_revoked(old(self).records@, old(self).records@[token_id as int].chain_root),
            (token_id as int) >= old(self).records@.len() ==> final(self).records@ == old(self).records@,
    {
        if token_id < self.records.len() as u64 {
            let root = self.records[token_id as usize].chain_root;
            self.revoke_chain_rooted(root);
        }
    }

    /// Revoke every record issued to `user_id` — "log out everywhere".
    pub fn revoke_all_for_user(&mut self, user_id: u64)
        requires
            old(self).wf(),
        ensures
            final(self).wf(),
            final(self).records@ == spec_user_revoked(old(self).records@, user_id),
    {
        let ghost s0 = self.records@;
        let n = self.records.len();
        let mut i: usize = 0;
        while i < n
            invariant
                n == s0.len(),
                self.records@.len() == n,
                0 <= i <= n,
                forall|j: int| 0 <= j < i ==> self.records@[j] == spec_user_revoked(s0, user_id)[j],
                forall|j: int| i <= j < n ==> self.records@[j] == s0[j],
            decreases n - i,
        {
            if self.records[i].user_id == user_id {
                let mut r = self.records[i];
                r.revoked = true;
                self.records[i] = r;
            }
            i = i + 1;
        }
        proof {
            assert(self.records@ =~= spec_user_revoked(s0, user_id));
            let s1 = self.records@;
            assert forall|j: int| 0 <= j < s1.len() implies record_ok(s1, j) by {
                assert(record_ok(s0, j));
            }
        }
    }

    /// Redeem a presented secret at time `now`, rotating on success.
    ///
    /// Exactly one of four things happens:
    /// - the secret designates no record: `NotFound`, nothing changes;
    /// - the record is already revoked: reuse — the whole chain is revoked
    ///   and the caller gets `Revoked`;
    /// - the record is live but past expiry: `Expired`, nothing changes;
    /// - the record is live and unexpired: it is revoked and linked to a
    ///   freshly appended successor in one step, and the successor's secret
    ///   (built from the caller's entropy) is returned.
    pub fn redeem(&mut self, sec: &RefreshSecret, now: u64, new_hi: u64, new_lo: u64, ttl: u64) -> (r: Result<RefreshSecret, RedeemError>)
        requires
            old(self).wf(),
            old(self).records@.len() < u64::MAX,
            now + ttl <= u64::MAX,
        ensures
            final(self).wf(),
            !spec_lookup_matches(old(self).records@, *sec) ==> {
                &&& r == Result::<RefreshSecret, RedeemError>::Err(RedeemError::NotFound)
                &&& final(self).records@ == old(self).records@
            },
            spec_lookup_matches(old(self).records@, *sec) ==> {
                let rec = old(self).records@[sec.token_id as int];
                if rec.revoked {
                    &&& r == Result::<RefreshSecret, RedeemError>::Err(RedeemError::Revoked)
                    &&& final(self).records@ == spec_chain_revoked(old(self).records@, rec.chain_root)
                } else if now >= rec.expires_at {
                    &&& r == Result::<RefreshSecret, RedeemError>::Err(RedeemError::Expired)
                    &&& final(self).records@ == old(self).records@
                } else {
                    &&& r == Result::<RefreshSecret, RedeemError>::Ok(
                        (RefreshSecret {
                            token_id: old(self).records@.len() as u64,
                            hi: new_hi,
                            lo: new_lo,
                        }))
                    &&& final(self).records@ == spec_rotated(old(self).records@, sec.token_id as int,
                        spec_secret_hash(new_hi, new_lo), now, ttl)
                }
            },
    {
        if sec.token_id >= self.records.len() as u64 {
            return Err(RedeemError::NotFound);
        }
        let idx = sec.token_id as usize;
        let presented = secret_hash(sec.hi, sec.lo);
        if self.records[idx].secret_hash != presented {
            return Err(RedeemError::NotFound);
        }
        let rec = self.records[idx];
        if rec.revoked {
            self.revoke_chain_rooted(rec.chain_root);
            return Err(RedeemError::Revoked);
        }
        if now >= rec.expires_at {
            return Err(RedeemError::Expired);
        }
        let new_id = self.records.len() as u64;
        let new_hash = secret_hash(new_hi, new_lo);
        let mut retired = rec;
        retired.revoked = true;
        retired.replaced_by = Some(new_id);
        self.records[idx] = retired;
        let successor = RefreshRecord {
            user_id: rec.user_id,
            secret_hash: new_hash,
            issued_at: now,
            expires_at: now + ttl,
            revoked: false,
            predecessor: Some(sec.token_id),
            replaced_by: None,
            chain_root: rec.chain_root,
        };
        self.records.push(successor);
        proof {
            let s0 = old(self).records@;
            let s1 = self.records@;
            let id = sec.token_id as int;
            assert(s1 =~= spec_rotated(s0, id, spec_secret_hash(new_hi, new_lo), now, ttl));
            assert(record_ok(s0, id));
            assert forall|j: int| 0 <= j < s1.len() implies record_ok(s1, j) by {
                if j < s0.len() {
                    assert(record_ok(s0, j));
                }
            }
            assert forall|i: int, j: int|
                0 <= i < s1.len() && 0 <= j < s1.len() && i != j && s1[i].chain_root == s1[j].chain_root
                implies s1[i].revoked || s1[j].revoked by {
                if i < s0.len() && j < s0.len() {
                    assert(s0[i].chain_root == s1[i].chain_root && s0[j].chain_root == s1[j].chain_root);
                }
            }
        }
        Ok(RefreshSecret { token_id: new_id, hi: new_hi, lo: new_lo })
    }
}

/// Single-use rotation: in a well-formed store, a live, unexpired record
/// redeems successfully into exactly one successor — the arena grows by
/// one, the record is revoked and linked to the new last record — and any
/// later redemption of the same secret, at any time and with any entropy,
/// finds the record revoked and is answered `Revoked`.
pub proof fn lemma_rotation_single_use(s: Seq<RefreshRecord>, sec: RefreshSecret, now: u64, new_hash: u64, ttl: u64, now2: u64)
    requires
        store_wf(s),
        s.len() < u64::MAX,
        spec_lookup_matches(s, sec),
        !s[sec.token_id as int].revoked,
        now < s[sec.token_id as int].expires_at,
    ensures
        ({
            let s1 = spec_rotated(s, sec.token_id as int, new_hash, now, ttl);
            &&& s1.len() == s.len() + 1
            &&& s1[sec.token_id as int].revoked
            &&& s1[sec.token_id as int].replaced_by == Option::Some(s.len() as u64)
            &&& !s1[s.len() as int].revoked
            &&& s1[s.len() as int].predecessor == Option::Some(sec.token_id)
            &&& spec_lookup_matches(s1, sec)
        }),
{
}

/// Reuse detection revokes the whole chain: after the chain of a reused
/// record is revoked, every member of that chain — predecessors and
/// successors alike — is revoked, so redeeming any of their secrets can
/// only be answered `Revoked`, never with a fresh pair.
pub proof fn lemma_reuse_revokes_chain(s: Seq<RefreshRecord>, reused: int, other: int)
    requires
        store_wf(s),
        0 <= reused < s.len(),
        0 <= other < s.len(),
        s[other].chain_root == s[reused].chain_root,
    ensures
        ({
            let s1 = spec_chain_revoked(s, s[reused].chain_root);
            &&& s1.len() == s.len()
            &&& s1[other].revoked
            &&& s1[other].secret_hash == s[other].secret_hash
        }),
{
    assert(record_ok(s, other));
}

} // verus!
