use authstream::store::{RedeemError, RefreshSecret, RefreshTokenStore};

const TTL: u64 = 1000;

#[test]
fn redeem_once_succeeds_then_reports_revoked() {
    let mut s = RefreshTokenStore::new();
    let t0 = s.mint(1, 11, 12, 100, TTL);
    let r1 = s.redeem(&t0, 200, 21, 22, TTL);
    let t1 = r1.unwrap();
    assert_eq!(t1.token_id, 1);
    // Exactly one successor: the arena grew by one and the old record
    // points at it.
    assert_eq!(s.records.len(), 2);
    assert!(s.records[0].revoked);
    assert_eq!(s.records[0].replaced_by, Some(1));
    assert_eq!(s.records[1].predecessor, Some(0));
    assert!(!s.records[1].revoked);
    // Second redemption of the same secret is reuse.
    assert_eq!(s.redeem(&t0, 300, 31, 32, TTL), Err(RedeemError::Revoked));
}

#[test]
fn reuse_revokes_the_whole_chain() {
    let mut s = RefreshTokenStore::new();
    let t0 = s.mint(1, 11, 12, 100, TTL);
    let t1 = s.redeem(&t0, 200, 21, 22, TTL).unwrap();
    let t2 = s.redeem(&t1, 300, 31, 32, TTL).unwrap();
    // Replaying the rotated-out head revokes the live tail as well.
    assert_eq!(s.redeem(&t0, 400, 41, 42, TTL), Err(RedeemError::Revoked));
    assert!(s.records[2].revoked);
    assert_eq!(s.redeem(&t2, 500, 51, 52, TTL), Err(RedeemError::Revoked));
}

#[test]
fn reuse_leaves_other_chains_alone() {
    let mut s = RefreshTokenStore::new();
    let a0 = s.mint(1, 11, 12, 100, TTL);
    let b0 = s.mint(2, 13, 14, 100, TTL);
    let a1 = s.redeem(&a0, 200, 21, 22, TTL).unwrap();
    assert_eq!(s.redeem(&a0, 300, 31, 32, TTL), Err(RedeemError::Revoked));
    assert!(s.records[a1.token_id as usize].revoked);
    // The other user's chain is untouched and still redeemable.
    assert!(!s.records[b0.token_id as usize].revoked);
    assert!(s.redeem(&b0, 400, 41, 42, TTL).is_ok());
}

#[test]
fn expired_record_is_not_rotated() {
    let mut s = RefreshTokenStore::new();
    let t0 = s.mint(1, 11, 12, 100, TTL);
    assert_eq!(s.redeem(&t0, 100 + TTL, 21, 22, TTL), Err(RedeemError::Expired));
    // No mutation: the record is still there, unrevoked, and nothing grew.
    assert_eq!(s.records.len(), 1);
    assert!(!s.records[0].revoked);
}

#[test]
fn unknown_secret_is_not_found() {
    let mut s = RefreshTokenStore::new();
    let t0 = s.mint(1, 11, 12, 100, TTL);
    let bad_id = RefreshSecret { token_id: 5, hi: t0.hi, lo: t0.lo };
    assert_eq!(s.redeem(&bad_id, 200, 21, 22, TTL), Err(RedeemError::NotFound));
    let bad_entropy = RefreshSecret { token_id: 0, hi: 99, lo: 99 };
    assert_eq!(s.redeem(&bad_entropy, 200, 21, 22, TTL), Err(RedeemError::NotFound));
    assert_eq!(s.records.len(), 1);
}

#[test]
fn revoke_is_idempotent() {
    let mut s = RefreshTokenStore::new();
    let t0 = s.mint(1, 11, 12, 100, TTL);
    s.revoke(t0.token_id);
    assert!(s.records[0].revoked);
    s.revoke(t0.token_id);
    assert!(s.records[0].revoked);
    s.revoke(17);
    assert_eq!(s.records.len(), 1);
}

#[test]
fn revoke_all_for_user_hits_every_record_of_that_user() {
    let mut s = RefreshTokenStore::new();
    let a = s.mint(1, 11, 12, 100, TTL);
    let b = s.mint(2, 13, 14, 100, TTL);
    let c = s.mint(1, 15, 16, 100, TTL);
    s.revoke_all_for_user(1);
    assert!(s.records[a.token_id as usize].revoked);
    assert!(s.records[c.token_id as usize].revoked);
    assert!(!s.records[b.token_id as usize].revoked);
}
