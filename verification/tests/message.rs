use chat_relay::message::{same_names, ChatError, ChatMessage, MessageContent};

fn names(list: &[&str]) -> Vec<String> {
    list.iter().map(|name| name.to_string()).collect()
}

#[test]
fn new_keeps_sender_recipient_and_content() {
    let message = ChatMessage::new("alice", "bob", MessageContent::Prompt("hi".to_string()));
    assert_eq!(message.from, "alice");
    assert_eq!(message.to, "bob");
    assert_eq!(message.content, MessageContent::Prompt("hi".to_string()));
    let empty = ChatMessage::new("", "", MessageContent::Close());
    assert_eq!(empty.from, "");
    assert_eq!(empty.to, "");
    assert_eq!(empty.content, MessageContent::Close());
}

#[test]
fn a_copy_is_the_same_message() {
    let messages = vec![
        ChatMessage::new("a", "b", MessageContent::Close()),
        ChatMessage::new("a", "b", MessageContent::Prompt("x".to_string())),
        ChatMessage::new("a", "b", MessageContent::GetUsersList),
        ChatMessage::new("a", "b", MessageContent::ListUsers(names(&["x", "y"]))),
        ChatMessage::new("a", "b", MessageContent::Error(ChatError::UserNotOnline)),
    ];
    for message in &messages {
        assert_eq!(&message.clone(), message);
        assert!(message.same_as(&message.clone()));
    }
    for (i, left) in messages.iter().enumerate() {
        for (j, right) in messages.iter().enumerate() {
            assert_eq!(left.same_as(right), i == j);
            assert_eq!(left.content.same_as(&right.content), i == j);
        }
    }
}

#[test]
fn messages_differ_by_each_of_their_parts() {
    let message = ChatMessage::new("a", "b", MessageContent::Prompt("x".to_string()));
    assert!(!message.same_as(&ChatMessage::new("c", "b", MessageContent::Prompt("x".to_string()))));
    assert!(!message.same_as(&ChatMessage::new("a", "c", MessageContent::Prompt("x".to_string()))));
    assert!(!message.same_as(&ChatMessage::new("a", "b", MessageContent::Prompt("y".to_string()))));
    assert!(message.same_as(&ChatMessage::new("a", "b", MessageContent::Prompt("x".to_string()))));
}

#[test]
fn lists_of_names_are_compared_in_order() {
    assert!(same_names(&names(&[]), &names(&[])));
    assert!(same_names(&names(&["a", "b"]), &names(&["a", "b"])));
    assert!(!same_names(&names(&["a", "b"]), &names(&["b", "a"])));
    assert!(!same_names(&names(&["a", "b"]), &names(&["a"])));
    assert!(!same_names(&names(&["a"]), &names(&["a", "b"])));
    assert!(!same_names(&names(&["a", "b"]), &names(&["a", "c"])));
}
