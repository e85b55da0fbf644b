use chat_relay::codec::Frame;
use chat_relay::message::{ChatMessage, MessageContent};
use chat_relay::registry::Registry;
use chat_relay::relay::{Relay, RelayAction, RelayEvent};
use chat_relay::session::{on_read, EventCache, ReadAction, ReadEvent};

/// Carries one frame from a client through both handlers to the other
/// client's reader, and gives what the reader publishes.
fn carried(text: &str) -> Option<ChatMessage> {
    let mut registry: Registry<&str> = Registry::new();
    let mut alice = Relay::accept(&mut registry, "alice".to_string(), "to alice").unwrap();
    let mut bob = Relay::accept(&mut registry, "bob".to_string(), "to bob").unwrap();

    let forwarded = match alice.step(&registry, RelayEvent::Inbound(Frame::Text(text.to_string()))) {
        RelayAction::Forward { sink, message } => {
            assert_eq!(*sink, "to bob");
            message
        }
        _ => return None,
    };
    let frame = match bob.step(&registry, RelayEvent::Outbound(forwarded)) {
        RelayAction::Write(frame) => frame,
        _ => return None,
    };
    match on_read(ReadEvent::Frame(frame)) {
        ReadAction::Publish(message) => Some(message),
        _ => None,
    }
}

#[test]
fn a_prompt_reaches_the_other_client_unmodified() {
    let text = r#"{"from":"alice","to":"bob","content":{"Prompt":"hi \"bob\"\né🦀"}}"#;
    assert_eq!(
        carried(text),
        Some(ChatMessage::new(
            "alice",
            "bob",
            MessageContent::Prompt("hi \"bob\"\n\u{e9}\u{1F980}".to_string())
        ))
    );
}

#[test]
fn a_prompt_to_nobody_reaches_nobody() {
    let text = r#"{"from":"alice","to":"carol","content":{"Prompt":"hi"}}"#;
    assert_eq!(carried(text), None);
}

#[test]
fn of_what_arrives_only_the_last_is_read() {
    let mut cache = EventCache::new();
    for text in ["one", "two", "three"] {
        let frame = format!(r#"{{"from":"alice","to":"bob","content":{{"Prompt":"{}"}}}}"#, text);
        if let Some(message) = carried(&frame) {
            cache.publish(message);
        }
    }
    assert_eq!(
        cache.take(),
        Some(ChatMessage::new("alice", "bob", MessageContent::Prompt("three".to_string())))
    );
    assert_eq!(cache.take(), None);
}
