use chat_relay::codec::{Frame, ProtocolError};
use chat_relay::message::{ChatError, ChatMessage, MessageContent};
use chat_relay::session::{
    farewell, on_decoded, on_read, present, prompt, request_users, EventCache, ReadAction, ReadEvent,
    Shown,
};

#[test]
fn the_messages_of_a_client() {
    assert_eq!(
        prompt("alice", "bob", "hi".to_string()),
        ChatMessage::new("alice", "bob", MessageContent::Prompt("hi".to_string()))
    );
    assert_eq!(request_users(), ChatMessage::new("", "", MessageContent::GetUsersList));
    assert_eq!(farewell(), ChatMessage::new("", "", MessageContent::Close()));
}

#[test]
fn the_reader_publishes_what_decodes() {
    let text = r#"{"from":"bob","to":"alice","content":{"Prompt":"hi"}}"#.to_string();
    assert_eq!(
        on_read(ReadEvent::Frame(Frame::Text(text))),
        ReadAction::Publish(ChatMessage::new("bob", "alice", MessageContent::Prompt("hi".to_string())))
    );
    assert_eq!(
        on_read(ReadEvent::Frame(Frame::Close)),
        ReadAction::Publish(ChatMessage::new("", "", MessageContent::Close()))
    );
}

#[test]
fn the_reader_skips_what_does_not_decode() {
    assert_eq!(on_read(ReadEvent::Frame(Frame::Text("{".to_string()))), ReadAction::Skip);
    assert_eq!(on_read(ReadEvent::Frame(Frame::Text("{}".to_string()))), ReadAction::Skip);
    assert_eq!(on_read(ReadEvent::Frame(Frame::Binary)), ReadAction::Skip);
    assert_eq!(on_read(ReadEvent::Frame(Frame::Ping)), ReadAction::Skip);
    assert_eq!(on_decoded(Err(ProtocolError::NotJson)), ReadAction::Skip);
    assert_eq!(on_decoded(Err(ProtocolError::UnknownContent)), ReadAction::Skip);
}

#[test]
fn the_reader_stops_at_a_failure_and_at_the_end() {
    assert_eq!(on_read(ReadEvent::Failed), ReadAction::Stop);
    assert_eq!(on_read(ReadEvent::Ended), ReadAction::Stop);
}

#[test]
fn a_new_cache_holds_nothing_unread() {
    let mut cache = EventCache::new();
    assert!(!cache.has_changed());
    assert_eq!(cache.latest(), &ChatMessage::new("", "", MessageContent::Close()));
    assert_eq!(cache.take(), None);
}

#[test]
fn of_two_messages_only_the_second_is_read() {
    let mut cache = EventCache::new();
    cache.publish(prompt("bob", "alice", "first".to_string()));
    cache.publish(prompt("bob", "alice", "second".to_string()));
    assert!(cache.has_changed());
    assert_eq!(cache.take(), Some(prompt("bob", "alice", "second".to_string())));
    assert!(!cache.has_changed());
    assert_eq!(cache.take(), None);
    assert_eq!(cache.latest(), &prompt("bob", "alice", "second".to_string()));
}

#[test]
fn of_many_messages_only_the_last_is_read() {
    for count in 1..50usize {
        let mut cache = EventCache::new();
        for i in 0..count {
            cache.publish(prompt("bob", "alice", format!("message {}", i)));
        }
        assert_eq!(cache.take(), Some(prompt("bob", "alice", format!("message {}", count - 1))));
        assert_eq!(cache.take(), None);
    }
}

#[test]
fn a_message_that_arrives_after_a_reading_is_read_next() {
    let mut cache = EventCache::new();
    cache.publish(prompt("bob", "alice", "one".to_string()));
    assert_eq!(cache.take(), Some(prompt("bob", "alice", "one".to_string())));
    cache.publish(request_users());
    assert_eq!(cache.take(), Some(request_users()));
}

#[test]
fn what_a_message_shows() {
    let users = ChatMessage::new(
        "__SERVER__",
        "alice",
        MessageContent::ListUsers(vec!["alice".to_string(), "bob".to_string()]),
    );
    assert_eq!(present(users), Shown::Users(vec!["alice".to_string(), "bob".to_string()]));
    assert_eq!(present(prompt("bob", "alice", "hi".to_string())), Shown::Prompt("hi".to_string()));
    assert_eq!(present(farewell()), Shown::Nothing);
    assert_eq!(present(request_users()), Shown::Nothing);
    assert_eq!(
        present(ChatMessage::new("__SERVER__", "alice", MessageContent::Error(ChatError::UserNotOnline))),
        Shown::Nothing
    );
}
