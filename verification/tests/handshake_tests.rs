use session_hub::frame::Inbound;
use session_hub::handshake::{display_name, open_session, parse_name};
use session_hub::ident::SessionId;
use session_hub::registry::Registry;

#[test]
fn parse_name_takes_what_follows_the_prefix() {
    assert_eq!(parse_name("name:Alice"), Some(String::from("Alice")));
    assert_eq!(parse_name("name:"), Some(String::new()));
    assert_eq!(parse_name("name: Bob "), Some(String::from(" Bob ")));
    assert_eq!(parse_name("name:name:x"), Some(String::from("name:x")));
    assert_eq!(parse_name("name:Zo\u{eb} \u{1f600}"), Some(String::from("Zo\u{eb} \u{1f600}")));
}

#[test]
fn parse_name_wants_the_exact_prefix() {
    assert_eq!(parse_name(""), None);
    assert_eq!(parse_name("name"), None);
    assert_eq!(parse_name("Name:Alice"), None);
    assert_eq!(parse_name(" name:Alice"), None);
    assert_eq!(parse_name("nam:Alice"), None);
    assert_eq!(parse_name("names:Alice"), None);
    assert_eq!(parse_name("cmd:get_time"), None);
    assert_eq!(parse_name("n\u{e4}me:Alice"), None);
    assert_eq!(parse_name("\u{1f600}\u{1f600}\u{1f600}\u{1f600}\u{1f600}\u{1f600}"), None);
}

#[test]
fn display_name_falls_back_to_unknown() {
    assert_eq!(display_name(&Inbound::Text(String::from("name:Alice"))), "Alice");
    assert_eq!(display_name(&Inbound::Text(String::from("name:"))), "");
    assert_eq!(display_name(&Inbound::Text(String::from("hello"))), "Unknown");
    assert_eq!(display_name(&Inbound::Text(String::new())), "Unknown");
    assert_eq!(display_name(&Inbound::Text(String::from("ping"))), "Unknown");
    assert_eq!(display_name(&Inbound::Other), "Unknown");
    assert_eq!(display_name(&Inbound::Closed), "Unknown");
}

#[test]
fn open_session_registers_the_named_client() {
    let mut registry = Registry::new();
    let id = SessionId::new(1);
    let mut receiver = open_session(&mut registry, id, &Inbound::Text(String::from("name:Alice")));

    assert_eq!(registry.len(), 1);
    let session = registry.lookup(id).expect("registered");
    assert_eq!(session.display_name(), "Alice");
    assert_eq!(session.outbound_capacity(), 10);
    assert!(receiver.try_recv().is_err());
}

#[test]
fn open_session_registers_even_without_a_message() {
    let mut registry = Registry::new();
    let closed = SessionId::new(1);
    let binary = SessionId::new(2);
    let _closed_receiver = open_session(&mut registry, closed, &Inbound::Closed);
    let _binary_receiver = open_session(&mut registry, binary, &Inbound::Other);

    assert_eq!(registry.len(), 2);
    assert_eq!(registry.lookup(closed).expect("registered").display_name(), "Unknown");
    assert_eq!(registry.lookup(binary).expect("registered").display_name(), "Unknown");
}

#[test]
fn a_command_as_first_message_is_only_a_naming_attempt() {
    let mut registry = Registry::new();
    let id = SessionId::new(1);
    let mut receiver = open_session(&mut registry, id, &Inbound::Text(String::from("cmd:get_time")));

    assert_eq!(registry.lookup(id).expect("registered").display_name(), "Unknown");
    assert!(receiver.try_recv().is_err());
}

#[test]
fn open_session_leaves_the_others_alone() {
    let mut registry = Registry::new();
    let alice = SessionId::new(1);
    let bob = SessionId::new(2);
    let _alice_receiver = open_session(&mut registry, alice, &Inbound::Text(String::from("name:Alice")));
    let _bob_receiver = open_session(&mut registry, bob, &Inbound::Text(String::from("name:Bob")));

    assert_eq!(registry.len(), 2);
    assert_eq!(registry.lookup(alice).expect("registered").display_name(), "Alice");
    assert_eq!(registry.lookup(bob).expect("registered").display_name(), "Bob");
}
