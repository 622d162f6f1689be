//! Session manager: the login/refresh/logout state machine, orchestrating
//! the credential verifier, the token issuer, the refresh token store and
//! the event bus.
//!
//! A login verifies credentials and opens a fresh rotation chain plus an
//! access token. A refresh redeems the presented secret: single use,
//! rotation on success, and reuse detection escalates — the whole chain is
//! revoked and every live stream subscription of that user is forcibly
//! closed. Logout revokes the chain and closes the user's subscriptions.
//!
//! Revocation cannot recall access tokens already in the wild: they are
//! stateless and lapse only at their expiry. That residual trust window,
//! bounded by the access token lifetime, is accepted by design.

use vstd::prelude::*;
use vstd::utf8::encode_utf8;
use crate::ACCESS_TTL_SECONDS;
use crate::REFRESH_TTL_SECONDS;
use crate::bus::{EventBus, SubModel, spec_closed_for_user};
use crate::dto::{RegisterRequest, spec_register_valid};
use crate::password::{PasswordHash, spec_pw_digest, hash_password, verify_password};
use crate::store::{RefreshTokenStore, RefreshSecret, RedeemError, spec_secret_hash, spec_fresh_record, spec_rotated, spec_chain_revoked, spec_lookup_matches};
use crate::token::{AccessClaims, spec_token_bytes, issue_access_token};

verus! {

/// One account in the user directory.
pub struct UserRecord {
    /// Identity; equal to the record's index in the directory.
    pub id: u64,
    pub username: String,
    pub email: String,
    /// Salted digest of the account password.
    pub password: PasswordHash,
    /// A locked account cannot log in.
    pub locked: bool,
}

/// What a successful login or refresh hands back.
pub struct AuthResult {
    pub user_id: u64,
    /// Signed stateless access token bytes.
    pub access: Vec<u8>,
    /// The stateful refresh secret for the next rotation.
    pub refresh: RefreshSecret,
}

/// Why a login was refused.
#[derive(Clone, Copy, PartialEq, Eq, Structural, Debug)]
pub enum LoginError {
    /// Unknown email or wrong password; routine, safe to report.
    InvalidCredentials,
    /// The account exists but is locked.
    AccountLocked,
}

/// Why a refresh was refused.
#[derive(Clone, Copy, PartialEq, Eq, Structural, Debug)]
pub enum SessionError {
    /// The secret designates no live record, or the record expired:
    /// the client must log in again.
    SessionExpired,
    /// Reuse of a rotated-out token: the chain has been revoked and the
    /// user's live subscriptions closed; re-login is required everywhere.
    SessionRevoked,
}

/// Why a registration was refused.
#[derive(Clone, Copy, PartialEq, Eq, Structural, Debug)]
pub enum RegisterError {
    /// The request fails field validation.
    InvalidRequest,
    /// Another account already uses the email.
    EmailTaken,
}

/// Whether some account in `users` has the address `email`.
pub open spec fn spec_email_taken(users: Seq<UserRecord>, email: Seq<char>) -> bool {
    exists|i: int| 0 <= i < users.len() && users[i].email@ == email
}

/// The session manager: user directory, refresh token arena, event bus,
/// and the process-wide signing key, fixed at construction.
pub struct SessionManager {
    pub users: Vec<UserRecord>,
    pub store: RefreshTokenStore,
    pub bus: EventBus,
    /// Signing key for access tokens; read-only after construction.
    pub key: u64,
}

impl SessionManager {
    /// Well-formedness: the store is well formed, ids equal indices, and
    /// no two accounts share an email.
    pub open spec fn wf(&self) -> bool {
        &&& self.store.wf()
        &&& self.users@.len() <= u64::MAX
        &&& forall|i: int| 0 <= i < self.users@.len() ==> self.users@[i].id == i as u64
        &&& forall|i: int, j: int|
            0 <= i < self.users@.len() && 0 <= j < self.users@.len() && i != j
                ==> self.users@[i].email@ != self.users@[j].email@
    }

    /// A manager with no users, no tokens and no subscriptions, signing
    /// with `key` and buffering `capacity` events per subscription.
    pub fn new(key: u64, capacity: usize) -> (m: SessionManager)
        requires
            capacity >= 1,
        ensures
            m.wf(),
            m.users@.len() == 0,
            m.store.records@.len() == 0,
            m.bus.model() == Seq::<SubModel>::empty(),
            m.bus.capacity == capacity,
            m.key == key,
    {
        SessionManager {
            users: Vec::new(),
            store: RefreshTokenStore::new(),
            bus: EventBus::new(capacity),
            key,
        }
    }

    /// The index of some account with address `email`, if one exists.
    fn find_user(&self, email: &String) -> (r: Option<usize>)
        ensures
            match r {
                Option::None => !spec_email_taken(self.users@, email@),
                Option::Some(i) => i < self.users@.len() && self.users@[i as int].email@ == email@,
            },
    {
        let n = self.users.len();
        let mut i: usize = 0;
        while i < n
            invariant
                n == self.users@.len(),
                0 <= i <= n,
                forall|j: int| 0 <= j < i ==> self.users@[j].email@ != email@,
            decreases n - i,
        {
            if self.users[i].email == *email {
                return Some(i);
            }
            i = i + 1;
        }
        None
    }

    /// Create an account: validate the request, refuse a taken email, and
    /// otherwise append the account with the salted digest of its
    /// password, unlocked, under the next free id.
    pub fn register(&mut self, req: &RegisterRequest, salt: u64) -> (r: Result<u64, RegisterError>)
        requires
            old(self).wf(),
            old(self).users@.len() < u64::MAX,
        ensures
            final(self).wf(),
            final(self).store == old(self).store,
            final(self).bus == old(self).bus,
            final(self).key == old(self).key,
            !spec_register_valid(*req) ==> {
                &&& r == Result::<u64, RegisterError>::Err(RegisterError::InvalidRequest)
                &&& final(self).users@ == old(self).users@
            },
            spec_register_valid(*req) && spec_email_taken(old(self).users@, req.email@) ==> {
                &&& r == Result::<u64, RegisterError>::Err(RegisterError::EmailTaken)
                &&& final(self).users@ == old(self).users@
            },
            spec_register_valid(*req) && !spec_email_taken(old(self).users@, req.email@) ==> {
                &&& r == Result::<u64, RegisterError>::Ok(old(self).users@.len() as u64)
                &&& final(self).users@.len() == old(self).users@.len() + 1
                &&& final(self).users@.subrange(0, old(self).users@.len() as int) == old(self).users@
                &&& ({
                    let u = final(self).users@.last();
                    &&& u.id == old(self).users@.len() as u64
                    &&& u.username@ == req.username@
                    &&& u.email@ == req.email@
                    &&& u.password.salt == salt
                    &&& u.password.digest == spec_pw_digest(salt, encode_utf8(req.password@))
                    &&& !u.locked
                })
            },
    {
        if !req.validate() {
            return Err(RegisterError::InvalidRequest);
        }
        if self.find_user(&req.email).is_some() {
            return Err(RegisterError::EmailTaken);
        }
        let id = self.users.len() as u64;
        let password = hash_password(req.password.as_str(), salt);
        let rec = UserRecord {
            id,
            username: req.username.clone(),
            email: req.email.clone(),
            password,
            locked: false,
        };
        self.users.push(rec);
        proof {
            assert(final(self).users@.subrange(0, old(self).users@.len() as int) =~= old(self).users@);
        }
        Ok(id)
    }

    /// Log in with an email and password at time `now`, seeding the new
    /// refresh secret with the caller's entropy.
    ///
    /// An unknown email or a wrong password is `InvalidCredentials`; a
    /// locked account is `AccountLocked`; in both cases nothing changes.
    /// Otherwise a fresh rotation chain is opened for the account and an
    /// access token minted at `now`, and nothing else changes.
    pub fn login(&mut self, email: &String, password: &String, now: u64, entropy_hi: u64, entropy_lo: u64) -> (r: Result<AuthResult, LoginError>)
        requires
            old(self).wf(),
            old(self).store.records@.len() < u64::MAX,
            now + ACCESS_TTL_SECONDS <= u64::MAX,
            now + REFRESH_TTL_SECONDS <= u64::MAX,
        ensures
            final(self).wf(),
            final(self).users == old(self).users,
            final(self).bus == old(self).bus,
            final(self).key == old(self).key,
            !spec_email_taken(old(self).users@, email@) ==> {
                &&& r == Result::<AuthResult, LoginError>::Err(LoginError::InvalidCredentials)
                &&& final(self).store == old(self).store
            },
            forall|i: int| 0 <= i < old(self).users@.len() && old(self).users@[i].email@ == email@
                ==> {
                let u = old(self).users@[i];
                if u.locked {
                    &&& r == Result::<AuthResult, LoginError>::Err(LoginError::AccountLocked)
                    &&& final(self).store == old(self).store
                } else if u.password.digest != spec_pw_digest(u.password.salt, encode_utf8(password@)) {
                    &&& r == Result::<AuthResult, LoginError>::Err(LoginError::InvalidCredentials)
                    &&& final(self).store == old(self).store
                } else {
                    &&& r is Ok
                    &&& r->Ok_0.user_id == u.id
                    &&& r->Ok_0.refresh == (RefreshSecret {
                        token_id: old(self).store.records@.len() as u64,
                        hi: entropy_hi,
                        lo: entropy_lo,
                    })
                    &&& r->Ok_0.access@ == spec_token_bytes(
                        (AccessClaims { sub: u.id, iat: now, exp: (now + ACCESS_TTL_SECONDS) as u64 }),
                        old(self).key)
                    &&& final(self).store.records@ == old(self).store.records@.push(
                        spec_fresh_record(u.id, spec_secret_hash(entropy_hi, entropy_lo), now,
                            REFRESH_TTL_SECONDS, old(self).store.records@.len() as u64))
                }
            },
    {
        let found = self.find_user(email);
        match found {
            None => Err(LoginError::InvalidCredentials),
            Some(i) => {
                if self.users[i].locked {
                    return Err(LoginError::AccountLocked);
                }
                if !verify_password(password.as_str(), &self.users[i].password) {
                    return Err(LoginError::InvalidCredentials);
                }
                let user_id = self.users[i].id;
                let refresh = self.store.mint(user_id, entropy_hi, entropy_lo, now, REFRESH_TTL_SECONDS);
                let access = issue_access_token(user_id, now, self.key);
                Ok(AuthResult { user_id, access, refresh })
            },
        }
    }

    /// Redeem a refresh secret at time `now`.
    ///
    /// An unknown or expired secret is `SessionExpired` and changes
    /// nothing. A revoked record is reuse: the whole chain is revoked, the
    /// user's live subscriptions are all closed, and the caller gets
    /// `SessionRevoked`. Otherwise the record rotates into a successor and
    /// a fresh access token is minted for the record's user.
    pub fn refresh(&mut self, sec: &RefreshSecret, now: u64, entropy_hi: u64, entropy_lo: u64) -> (r: Result<AuthResult, SessionError>)
        requires
            old(self).wf(),
            old(self).store.records@.len() < u64::MAX,
            now + ACCESS_TTL_SECONDS <= u64::MAX,
            now + REFRESH_TTL_SECONDS <= u64::MAX,
        ensures
            final(self).wf(),
            final(self).users == old(self).users,
            final(self).key == old(self).key,
            final(self).bus.capacity == old(self).bus.capacity,
            !spec_lookup_matches(old(self).store.records@, *sec) ==> {
                &&& r == Result::<AuthResult, SessionError>::Err(SessionError::SessionExpired)
                &&& final(self).store.records@ == old(self).store.records@
                &&& final(self).bus == old(self).bus
            },
            spec_lookup_matches(old(self).store.records@, *sec) ==> {
                let rec = old(self).store.records@[sec.token_id as int];
                if rec.revoked {
                    &&& r == Result::<AuthResult, SessionError>::Err(SessionError::SessionRevoked)
                    &&& final(self).store.records@ == spec_chain_revoked(old(self).store.records@, rec.chain_root)
                    &&& final(self).bus.model() == spec_closed_for_user(old(self).bus.model(), rec.user_id)
                } else if now >= rec.expires_at {
                    &&& r == Result::<AuthResult, SessionError>::Err(SessionError::SessionExpired)
                    &&& final(self).store.records@ == old(self).store.records@
                    &&& final(self).bus == old(self).bus
                } else {
                    &&& r is Ok
                    &&& r->Ok_0.user_id == rec.user_id
                    &&& r->Ok_0.refresh == (RefreshSecret {
                        token_id: old(self).store.records@.len() as u64,
                        hi: entropy_hi,
                        lo: entropy_lo,
                    })
                    &&& r->Ok_0.access@ == spec_token_bytes(
                        (AccessClaims { sub: rec.user_id, iat: now, exp: (now + ACCESS_TTL_SECONDS) as u64 }),
                        old(self).key)
                    &&& final(self).store.records@ == spec_rotated(old(self).store.records@,
                        sec.token_id as int, spec_secret_hash(entropy_hi, entropy_lo), now,
                        REFRESH_TTL_SECONDS)
                    &&& final(self).bus == old(self).bus
                }
            },
    {
        let user_id_hint = if sec.token_id < self.store.records.len() as u64 {
            self.store.records[sec.token_id as usize].user_id
        } else {
            0
        };
        let redeemed = self.store.redeem(sec, now, entropy_hi, entropy_lo, REFRESH_TTL_SECONDS);
        match redeemed {
            Err(RedeemError::NotFound) => Err(SessionError::SessionExpired),
            Err(RedeemError::Expired) => Err(SessionError::SessionExpired),
            Err(RedeemError::Revoked) => {
                self.bus.close_all_for_user(user_id_hint);
                Err(SessionError::SessionRevoked)
            },
            Ok(refresh) => {
                let user_id = user_id_hint;
                let access = issue_access_token(user_id, now, self.key);
                Ok(AuthResult { user_id, access, refresh })
            },
        }
    }

    /// Explicit logout of the session holding `token_id`: revoke its whole
    /// rotation chain and close every live subscription of its user. An
    /// unknown id changes nothing.
    pub fn logout(&mut self, token_id: u64)
        requires
            old(self).wf(),
        ensures
            final(self).wf(),
            final(self).users == old(self).users,
            final(self).key == old(self).key,
            final(self).bus.capacity == old(self).bus.capacity,
            (token_id as int) < old(self).store.records@.len() ==> {
                let rec = old(self).store.records@[token_id as int];
                &&& final(self).store.records@ == spec_chain_revoked(old(self).store.records@, rec.chain_root)
                &&& final(self).bus.model() == spec_closed_for_user(old(self).bus.model(), rec.user_id)
            },
            (token_id as int) >= old(self).store.records@.len() ==> {
                &&& final(self).store == old(self).store
                &&& final(self).bus == old(self).bus
            },
    {
        if token_id < self.store.records.len() as u64 {
            let user_id = self.store.records[token_id as usize].user_id;
            self.store.revoke_chain(token_id);
            self.bus.close_all_for_user(user_id);
        }
    }
}

} // verus!
