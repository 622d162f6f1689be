use authstream::bus::{ChangeKind, Delivery, Event, EventBus, ResourceKind};

fn ev(user_id: u64, resource: ResourceKind, change: ChangeKind, payload: &str) -> Event {
    Event { user_id, resource, change, payload: payload.to_string() }
}

fn expect_ready(d: Delivery) -> Event {
    match d {
        Delivery::Ready(e) => e,
        Delivery::Pending => panic!("expected an event, sequence is pending"),
        Delivery::Closed => panic!("expected an event, sequence is closed"),
    }
}

#[test]
fn events_arrive_in_publish_order() {
    let mut bus = EventBus::new(8);
    let h = bus.subscribe(1);
    bus.publish(1, &ev(1, ResourceKind::Task, ChangeKind::Created, "first"));
    bus.publish(1, &ev(1, ResourceKind::Task, ChangeKind::Updated, "second"));
    let e1 = expect_ready(bus.next_event(h));
    assert_eq!(e1.payload, "first");
    assert!(matches!(e1.change, ChangeKind::Created));
    let e2 = expect_ready(bus.next_event(h));
    assert_eq!(e2.payload, "second");
    assert!(matches!(e2.change, ChangeKind::Updated));
    assert!(matches!(bus.next_event(h), Delivery::Pending));
}

#[test]
fn subscriber_receives_exactly_its_own_events() {
    let mut bus = EventBus::new(8);
    let hu = bus.subscribe(1);
    let hv = bus.subscribe(2);
    bus.publish(1, &ev(1, ResourceKind::Task, ChangeKind::Created, "for u"));
    let got = expect_ready(bus.next_event(hu));
    assert_eq!(got.user_id, 1);
    assert!(matches!(got.resource, ResourceKind::Task));
    assert!(matches!(got.change, ChangeKind::Created));
    assert_eq!(got.payload, "for u");
    // The other user's subscription sees nothing.
    assert!(matches!(bus.next_event(hv), Delivery::Pending));
    // And nothing further for the first user either.
    assert!(matches!(bus.next_event(hu), Delivery::Pending));
}

#[test]
fn full_buffer_drops_the_incoming_event() {
    let mut bus = EventBus::new(2);
    let h = bus.subscribe(1);
    bus.publish(1, &ev(1, ResourceKind::Message, ChangeKind::Created, "a"));
    bus.publish(1, &ev(1, ResourceKind::Message, ChangeKind::Created, "b"));
    // The buffer holds two; the newest pending event is dropped, the
    // publisher neither blocks nor learns of it.
    bus.publish(1, &ev(1, ResourceKind::Message, ChangeKind::Created, "c"));
    assert_eq!(expect_ready(bus.next_event(h)).payload, "a");
    assert_eq!(expect_ready(bus.next_event(h)).payload, "b");
    assert!(matches!(bus.next_event(h), Delivery::Pending));
    // Room again: delivery resumes.
    bus.publish(1, &ev(1, ResourceKind::Message, ChangeKind::Created, "d"));
    assert_eq!(expect_ready(bus.next_event(h)).payload, "d");
}

#[test]
fn close_all_for_user_ends_every_live_sequence() {
    let mut bus = EventBus::new(8);
    let h1 = bus.subscribe(1);
    let h2 = bus.subscribe(1);
    let hv = bus.subscribe(2);
    bus.publish(1, &ev(1, ResourceKind::Notification, ChangeKind::Created, "pending"));
    bus.close_all_for_user(1);
    // Both connections are terminated at once, backlog discarded.
    assert!(matches!(bus.next_event(h1), Delivery::Closed));
    assert!(matches!(bus.next_event(h2), Delivery::Closed));
    // Publishing afterwards delivers nothing to them.
    bus.publish(1, &ev(1, ResourceKind::Notification, ChangeKind::Created, "late"));
    assert!(matches!(bus.next_event(h1), Delivery::Closed));
    assert!(matches!(bus.next_event(h2), Delivery::Closed));
    // The other user's subscription is unaffected.
    assert!(matches!(bus.next_event(hv), Delivery::Pending));
}

#[test]
fn unsubscribe_is_idempotent_and_scoped() {
    let mut bus = EventBus::new(8);
    let h1 = bus.subscribe(1);
    let h2 = bus.subscribe(1);
    bus.unsubscribe(h1);
    bus.unsubscribe(h1);
    bus.unsubscribe(999);
    assert!(matches!(bus.next_event(h1), Delivery::Closed));
    // The user's other subscription stays live.
    bus.publish(1, &ev(1, ResourceKind::Task, ChangeKind::Deleted, "gone"));
    assert_eq!(expect_ready(bus.next_event(h2)).payload, "gone");
}
