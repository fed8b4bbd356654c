use session_hub::ident::SessionId;
use session_hub::outbox::{open_outbound, Enqueue, OUTBOUND_CAPACITY};
use session_hub::registry::{Delivery, Registry, Session};

#[test]
fn a_new_registry_is_empty() {
    let registry = Registry::new();
    assert_eq!(registry.len(), 0);
    assert!(registry.is_empty());
    assert!(!registry.contains(SessionId::new(1)));
    assert!(registry.lookup(SessionId::new(1)).is_none());
}

#[test]
fn register_then_lookup() {
    let mut registry = Registry::new();
    let id = SessionId::new(17);
    let (session, _receiver) = Session::open(String::from("Alice"));
    registry.register(id, session);

    assert_eq!(registry.len(), 1);
    assert!(!registry.is_empty());
    assert!(registry.contains(id));
    assert_eq!(registry.lookup(id).expect("registered").display_name(), "Alice");
    assert!(registry.lookup(SessionId::new(18)).is_none());
}

#[test]
fn one_entry_per_identifier() {
    let mut registry = Registry::new();
    let id = SessionId::new(17);
    let (first, _first_receiver) = Session::open(String::from("Alice"));
    let (second, _second_receiver) = Session::open(String::from("Bob"));
    registry.register(id, first);
    registry.register(id, second);

    assert_eq!(registry.len(), 1);
    assert_eq!(registry.lookup(id).expect("registered").display_name(), "Bob");
}

#[test]
fn sessions_do_not_disturb_each_other() {
    let mut registry = Registry::new();
    let mut receivers = Vec::new();
    for n in 0..50u128 {
        let (session, receiver) = Session::open(format!("client-{}", n));
        registry.register(SessionId::new(n), session);
        receivers.push(receiver);
    }
    assert_eq!(registry.len(), 50);
    let removed = registry.remove(SessionId::new(20)).expect("registered");
    assert_eq!(removed.display_name(), "client-20");
    assert_eq!(registry.len(), 49);
    for n in 0..50u128 {
        let id = SessionId::new(n);
        if n == 20 {
            assert!(!registry.contains(id));
        } else {
            assert_eq!(registry.lookup(id).expect("registered").display_name(), format!("client-{}", n));
        }
    }
}

#[test]
fn remove_hands_the_entry_back_once() {
    let mut registry = Registry::new();
    let id = SessionId::new(3);
    let (session, _receiver) = Session::open(String::from("Carol"));
    registry.register(id, session);

    let removed = registry.remove(id).expect("registered");
    assert_eq!(removed.display_name(), "Carol");
    assert!(!registry.contains(id));
    assert!(registry.is_empty());
    assert!(registry.remove(id).is_none());
    assert!(registry.is_empty());
}

#[test]
fn remove_of_a_stranger_changes_nothing() {
    let mut registry = Registry::new();
    let id = SessionId::new(3);
    let (session, _receiver) = Session::open(String::from("Carol"));
    registry.register(id, session);

    assert!(registry.remove(SessionId::new(4)).is_none());
    assert_eq!(registry.len(), 1);
    assert!(registry.contains(id));
}

#[test]
fn every_outbound_channel_holds_ten() {
    assert_eq!(OUTBOUND_CAPACITY, 10);
    let (session, receiver) = Session::open(String::from("Dan"));
    assert_eq!(session.outbound_capacity(), 10);
    assert_eq!(receiver.max_capacity(), 10);
    let (sender, _receiver) = open_outbound();
    assert_eq!(sender.max_capacity(), 10);
    assert_eq!(sender.capacity(), 10);
}

#[test]
fn deliver_puts_messages_in_order() {
    let mut registry = Registry::new();
    let id = SessionId::new(9);
    let (session, mut receiver) = Session::open(String::from("Eve"));
    registry.register(id, session);

    assert_eq!(registry.deliver(id, String::from("one")), Delivery::Queued);
    assert_eq!(registry.deliver(id, String::from("two")), Delivery::Queued);
    assert_eq!(registry.deliver(id, String::from("three")), Delivery::Queued);
    assert_eq!(receiver.try_recv().ok(), Some(String::from("one")));
    assert_eq!(receiver.try_recv().ok(), Some(String::from("two")));
    assert_eq!(receiver.try_recv().ok(), Some(String::from("three")));
    assert!(receiver.try_recv().is_err());
}

#[test]
fn deliver_drops_what_does_not_fit() {
    let mut registry = Registry::new();
    let id = SessionId::new(9);
    let (session, mut receiver) = Session::open(String::from("Eve"));
    registry.register(id, session);

    for n in 0..10 {
        assert_eq!(registry.deliver(id, format!("m{}", n)), Delivery::Queued);
    }
    assert_eq!(registry.deliver(id, String::from("m10")), Delivery::Full);
    assert_eq!(registry.deliver(id, String::from("m11")), Delivery::Full);
    assert!(registry.contains(id));

    assert_eq!(receiver.try_recv().ok(), Some(String::from("m0")));
    assert_eq!(registry.deliver(id, String::from("m12")), Delivery::Queued);
    for n in 1..10 {
        assert_eq!(receiver.try_recv().ok(), Some(format!("m{}", n)));
    }
    assert_eq!(receiver.try_recv().ok(), Some(String::from("m12")));
    assert!(receiver.try_recv().is_err());
}

#[test]
fn deliver_to_a_closed_channel_is_no_error() {
    let mut registry = Registry::new();
    let id = SessionId::new(9);
    let (session, receiver) = Session::open(String::from("Eve"));
    registry.register(id, session);
    drop(receiver);

    assert_eq!(registry.deliver(id, String::from("lost")), Delivery::Closed);
    assert!(registry.contains(id));
}

#[test]
fn deliver_to_a_missing_session_does_nothing() {
    let mut registry = Registry::new();
    let id = SessionId::new(9);
    let (session, mut receiver) = Session::open(String::from("Eve"));
    registry.register(id, session);

    assert_eq!(registry.deliver(SessionId::new(10), String::from("lost")), Delivery::NoSession);
    assert!(receiver.try_recv().is_err());
    assert_eq!(registry.len(), 1);
}

#[test]
fn settle_names_each_outcome() {
    assert_eq!(Delivery::settle(None), Delivery::NoSession);
    assert_eq!(Delivery::settle(Some(Enqueue::Queued)), Delivery::Queued);
    assert_eq!(Delivery::settle(Some(Enqueue::Full)), Delivery::Full);
    assert_eq!(Delivery::settle(Some(Enqueue::Closed)), Delivery::Closed);
}
