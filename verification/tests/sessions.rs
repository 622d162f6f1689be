use authstream::bus::{ChangeKind, Delivery, Event, ResourceKind};
use authstream::dto::RegisterRequest;
use authstream::gateway::{connect_stream, disconnect_stream};
use authstream::session::{LoginError, RegisterError, SessionError, SessionManager};
use authstream::token::TokenError;

const KEY: u64 = 0xfeed_beef_cafe_0001;
const NOW: u64 = 1_700_000_000;

fn manager_with_account() -> SessionManager {
    let mut m = SessionManager::new(KEY, 8);
    let req = RegisterRequest {
        username: "alice".to_string(),
        email: "a@x.com".to_string(),
        password: "secret1".to_string(),
    };
    let id = m.register(&req, 7).unwrap();
    assert_eq!(id, 0);
    m
}

#[test]
fn register_rejects_invalid_and_duplicate_requests() {
    let mut m = SessionManager::new(KEY, 8);
    let bad_email = RegisterRequest {
        username: "alice".to_string(),
        email: "not-an-address".to_string(),
        password: "secret1".to_string(),
    };
    assert_eq!(m.register(&bad_email, 7), Err(RegisterError::InvalidRequest));
    let short_password = RegisterRequest {
        username: "alice".to_string(),
        email: "a@x.com".to_string(),
        password: "five5".to_string(),
    };
    assert_eq!(m.register(&short_password, 7), Err(RegisterError::InvalidRequest));
    let short_username = RegisterRequest {
        username: "al".to_string(),
        email: "a@x.com".to_string(),
        password: "secret1".to_string(),
    };
    assert_eq!(m.register(&short_username, 7), Err(RegisterError::InvalidRequest));
    let good = RegisterRequest {
        username: "alice".to_string(),
        email: "a@x.com".to_string(),
        password: "secret1".to_string(),
    };
    assert_eq!(m.register(&good, 7), Ok(0));
    let duplicate = RegisterRequest {
        username: "other".to_string(),
        email: "a@x.com".to_string(),
        password: "secret2".to_string(),
    };
    assert_eq!(m.register(&duplicate, 8), Err(RegisterError::EmailTaken));
}

#[test]
fn login_checks_credentials_and_lock() {
    let mut m = manager_with_account();
    assert_eq!(
        m.login(&"b@x.com".to_string(), &"secret1".to_string(), NOW, 1, 2).err(),
        Some(LoginError::InvalidCredentials)
    );
    assert_eq!(
        m.login(&"a@x.com".to_string(), &"wrong-password".to_string(), NOW, 1, 2).err(),
        Some(LoginError::InvalidCredentials)
    );
    m.users[0].locked = true;
    assert_eq!(
        m.login(&"a@x.com".to_string(), &"secret1".to_string(), NOW, 1, 2).err(),
        Some(LoginError::AccountLocked)
    );
    m.users[0].locked = false;
    let a = m.login(&"a@x.com".to_string(), &"secret1".to_string(), NOW, 1, 2).unwrap();
    assert_eq!(a.user_id, 0);
}

#[test]
fn login_refresh_and_reuse_detection_end_to_end() {
    let mut m = manager_with_account();
    let a1 = m.login(&"a@x.com".to_string(), &"secret1".to_string(), NOW, 1, 2).unwrap();
    assert_eq!(a1.access.len(), 32);

    let a2 = m.refresh(&a1.refresh, NOW + 60, 3, 4).unwrap();
    assert_eq!(a2.user_id, 0);
    assert_ne!(a1.refresh, a2.refresh);

    // Replaying the original refresh secret is reuse: the session is
    // revoked, and by the whole-chain policy the rotated successor dies
    // with it — a re-login is required.
    assert_eq!(m.refresh(&a1.refresh, NOW + 120, 5, 6).err(), Some(SessionError::SessionRevoked));
    assert_eq!(m.refresh(&a2.refresh, NOW + 180, 7, 8).err(), Some(SessionError::SessionRevoked));

    // A fresh login opens a new chain that rotates normally again.
    let a3 = m.login(&"a@x.com".to_string(), &"secret1".to_string(), NOW + 240, 9, 10).unwrap();
    let a4 = m.refresh(&a3.refresh, NOW + 300, 11, 12).unwrap();
    assert_eq!(a4.user_id, 0);
}

#[test]
fn refresh_of_unknown_or_expired_session_is_routine() {
    let mut m = manager_with_account();
    let a1 = m.login(&"a@x.com".to_string(), &"secret1".to_string(), NOW, 1, 2).unwrap();
    let mut unknown = a1.refresh;
    unknown.token_id = 55;
    assert_eq!(m.refresh(&unknown, NOW + 1, 3, 4).err(), Some(SessionError::SessionExpired));
    let far_future = NOW + authstream::REFRESH_TTL_SECONDS;
    assert_eq!(m.refresh(&a1.refresh, far_future, 3, 4).err(), Some(SessionError::SessionExpired));
}

#[test]
fn stream_requires_a_valid_token_and_delivers_own_events() {
    let mut m = manager_with_account();
    let a = m.login(&"a@x.com".to_string(), &"secret1".to_string(), NOW, 1, 2).unwrap();

    // A damaged token never opens a subscription.
    let mut damaged = a.access.clone();
    damaged[3] ^= 0x10;
    assert_eq!(connect_stream(&mut m, &damaged, NOW), Err(TokenError::SignatureInvalid));
    assert_eq!(connect_stream(&mut m, &Vec::new(), NOW), Err(TokenError::Malformed));
    let late = NOW + authstream::ACCESS_TTL_SECONDS;
    assert_eq!(connect_stream(&mut m, &a.access, late), Err(TokenError::Expired));
    assert_eq!(m.bus.subs.len(), 0);

    let h = connect_stream(&mut m, &a.access, NOW + 1).unwrap();
    m.bus.publish(0, &Event {
        user_id: 0,
        resource: ResourceKind::Task,
        change: ChangeKind::Created,
        payload: "task payload".to_string(),
    });
    // An event for a different user is invisible here.
    m.bus.publish(9, &Event {
        user_id: 9,
        resource: ResourceKind::Message,
        change: ChangeKind::Created,
        payload: "someone else".to_string(),
    });
    match m.bus.next_event(h) {
        Delivery::Ready(e) => {
            assert_eq!(e.user_id, 0);
            assert!(matches!(e.resource, ResourceKind::Task));
            assert!(matches!(e.change, ChangeKind::Created));
            assert_eq!(e.payload, "task payload");
        },
        _ => panic!("expected the published event"),
    }
    assert!(matches!(m.bus.next_event(h), Delivery::Pending));
    disconnect_stream(&mut m, h);
    assert!(matches!(m.bus.next_event(h), Delivery::Closed));
}

#[test]
fn logout_revokes_the_chain_and_closes_both_connections() {
    let mut m = manager_with_account();
    let a = m.login(&"a@x.com".to_string(), &"secret1".to_string(), NOW, 1, 2).unwrap();
    let h1 = connect_stream(&mut m, &a.access, NOW + 1).unwrap();
    let h2 = connect_stream(&mut m, &a.access, NOW + 2).unwrap();

    m.logout(a.refresh.token_id);

    assert!(matches!(m.bus.next_event(h1), Delivery::Closed));
    assert!(matches!(m.bus.next_event(h2), Delivery::Closed));
    m.bus.publish(0, &Event {
        user_id: 0,
        resource: ResourceKind::Notification,
        change: ChangeKind::Updated,
        payload: "after logout".to_string(),
    });
    assert!(matches!(m.bus.next_event(h1), Delivery::Closed));
    assert!(matches!(m.bus.next_event(h2), Delivery::Closed));
    // The refresh token is gone too.
    assert_eq!(m.refresh(&a.refresh, NOW + 3, 3, 4).err(), Some(SessionError::SessionRevoked));
}

#[test]
fn reuse_detection_disconnects_live_streams() {
    let mut m = manager_with_account();
    let a1 = m.login(&"a@x.com".to_string(), &"secret1".to_string(), NOW, 1, 2).unwrap();
    let a2 = m.refresh(&a1.refresh, NOW + 60, 3, 4).unwrap();
    let h = connect_stream(&mut m, &a2.access, NOW + 61).unwrap();
    assert!(matches!(m.bus.next_event(h), Delivery::Pending));

    // Reuse of the rotated-out secret forces the stream shut.
    assert_eq!(m.refresh(&a1.refresh, NOW + 120, 5, 6).err(), Some(SessionError::SessionRevoked));
    assert!(matches!(m.bus.next_event(h), Delivery::Closed));
}
