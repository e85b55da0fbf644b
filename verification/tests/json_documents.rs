use chat_relay::codec::{content_of_json, json_of_content, json_of_message, message_of_json, ProtocolError};
use chat_relay::json::Json;
use chat_relay::message::{ChatError, ChatMessage, MessageContent};

fn text(s: &str) -> Json {
    Json::Text(s.to_string())
}

fn object(members: Vec<(&str, Json)>) -> Json {
    Json::Object(members.into_iter().map(|(key, value)| (key.to_string(), value)).collect())
}

#[test]
fn a_message_becomes_an_object_of_three_members() {
    let message = ChatMessage::new("alice", "bob", MessageContent::Prompt("hi".to_string()));
    assert_eq!(
        json_of_message(&message),
        object(vec![
            ("from", text("alice")),
            ("to", text("bob")),
            ("content", object(vec![("Prompt", text("hi"))])),
        ])
    );
}

#[test]
fn each_content_has_its_document() {
    assert_eq!(json_of_content(&MessageContent::Close()), object(vec![("Close", Json::List(vec![]))]));
    assert_eq!(
        json_of_content(&MessageContent::Prompt("x".to_string())),
        object(vec![("Prompt", text("x"))])
    );
    assert_eq!(json_of_content(&MessageContent::GetUsersList), text("GetUsersList"));
    assert_eq!(
        json_of_content(&MessageContent::ListUsers(vec!["a".to_string(), "b".to_string()])),
        object(vec![("ListUsers", Json::List(vec![text("a"), text("b")]))])
    );
    assert_eq!(
        json_of_content(&MessageContent::Error(ChatError::UserNotOnline)),
        object(vec![("Error", text("UserNotOnline"))])
    );
}

#[test]
fn each_document_of_a_content_reads_back() {
    let contents = vec![
        MessageContent::Close(),
        MessageContent::Prompt("x".to_string()),
        MessageContent::GetUsersList,
        MessageContent::ListUsers(vec![]),
        MessageContent::ListUsers(vec!["a".to_string(), "b".to_string()]),
        MessageContent::Error(ChatError::UserNotOnline),
    ];
    for content in contents {
        assert_eq!(content_of_json(&json_of_content(&content)), Some(content));
    }
}

#[test]
fn the_first_of_two_members_with_one_key_counts() {
    let document = object(vec![
        ("from", text("alice")),
        ("from", text("mallory")),
        ("to", text("bob")),
        ("content", text("GetUsersList")),
    ]);
    assert_eq!(
        message_of_json(&document),
        Ok(ChatMessage::new("alice", "bob", MessageContent::GetUsersList))
    );
}

#[test]
fn documents_of_the_wrong_shape_are_told_apart() {
    assert_eq!(message_of_json(&Json::Null), Err(ProtocolError::NotAMessage));
    assert_eq!(message_of_json(&Json::List(vec![])), Err(ProtocolError::NotAMessage));
    assert_eq!(
        message_of_json(&object(vec![("from", text("a")), ("to", text("b"))])),
        Err(ProtocolError::NotAMessage)
    );
    assert_eq!(
        message_of_json(&object(vec![
            ("from", text("a")),
            ("to", Json::Number("1".to_string())),
            ("content", text("GetUsersList")),
        ])),
        Err(ProtocolError::NotAMessage)
    );
    assert_eq!(
        message_of_json(&object(vec![
            ("from", text("a")),
            ("to", text("b")),
            ("content", Json::Bool(true)),
        ])),
        Err(ProtocolError::UnknownContent)
    );
    // the shape of the message is looked at before its content
    assert_eq!(
        message_of_json(&object(vec![("from", text("a")), ("content", Json::Bool(true))])),
        Err(ProtocolError::NotAMessage)
    );
}
