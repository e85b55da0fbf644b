//! Chat messages: who sent one, whom it is for, and what it carries.

use vstd::prelude::*;
use vstd::string::StringExecFns;

verus! {

/// Why the server could not route a message.
#[derive(Debug, Clone, Copy, PartialEq, Eq, Structural)]
pub enum ChatError {
    /// The recipient has no connection at the moment.
    UserNotOnline,
}

/// What a message carries.
#[derive(Debug, PartialEq, Eq)]
pub enum MessageContent {
    /// Orderly shutdown of the connection.
    Close(),
    /// A text from one user to another.
    Prompt(String),
    /// A request for the identities that are connected.
    GetUsersList,
    /// The answer to `GetUsersList`, in the registry's order.
    ListUsers(Vec<String>),
    /// A failure notice from the server.
    Error(ChatError),
}

/// One message on the wire.
#[derive(Debug, PartialEq, Eq)]
pub struct ChatMessage {
    pub from: String,
    pub to: String,
    pub content: MessageContent,
}

/// The mathematical value of a [`MessageContent`].
pub enum ContentView {
    Close,
    Prompt(Seq<char>),
    GetUsersList,
    ListUsers(Seq<Seq<char>>),
    Error(ChatError),
}

/// The mathematical value of a [`ChatMessage`].
pub struct MessageView {
    pub from: Seq<char>,
    pub to: Seq<char>,
    pub content: ContentView,
}

/// The identities that a vector of strings holds, in order.
pub open spec fn names_view(names: Seq<String>) -> Seq<Seq<char>> {
    Seq::new(names.len(), |i: int| names[i]@)
}

impl View for MessageContent {
    type V = ContentView;

    open spec fn view(&self) -> ContentView {
        match self {
            MessageContent::Close() => ContentView::Close,
            MessageContent::Prompt(text) => ContentView::Prompt(text@),
            MessageContent::GetUsersList => ContentView::GetUsersList,
            MessageContent::ListUsers(names) => ContentView::ListUsers(names_view(names@)),
            MessageContent::Error(kind) => ContentView::Error(*kind),
        }
    }
}

impl View for ChatMessage {
    type V = MessageView;

    open spec fn view(&self) -> MessageView {
        MessageView { from: self.from@, to: self.to@, content: self.content@ }
    }
}

/// The empty string literal holds no character.
pub proof fn lemma_empty_text()
    ensures
        ""@ == Seq::<char>::empty(),
{
    reveal_strlit("");
    assert(""@ =~= Seq::<char>::empty());
}

/// A copy of a vector of strings.
pub fn copy_names(names: &Vec<String>) -> (copy: Vec<String>)
    ensures
        names_view(copy@) == names_view(names@),
{
    let mut copy: Vec<String> = Vec::new();
    let mut i: usize = 0;
    while i < names.len()
        invariant
            i <= names.len(),
            copy.len() == i,
            forall|k: int| 0 <= k < i ==> copy[k]@ == names[k]@,
        decreases names.len() - i,
    {
        copy.push(names[i].clone());
        i += 1;
    }
    copy
}

/// Whether two vectors hold the same strings in the same order.
pub fn same_names(left: &Vec<String>, right: &Vec<String>) -> (same: bool)
    ensures
        same == (names_view(left@) == names_view(right@)),
{
    if left.len() != right.len() {
        assert(names_view(left@).len() != names_view(right@).len());
        return false;
    }
    let mut i: usize = 0;
    while i < left.len()
        invariant
            i <= left.len(),
            left.len() == right.len(),
            forall|k: int| 0 <= k < i ==> left[k]@ == right[k]@,
        decreases left.len() - i,
    {
        if left[i] != right[i] {
            assert(names_view(left@)[i as int] != names_view(right@)[i as int]);
            return false;
        }
        i += 1;
    }
    assert(names_view(left@) =~= names_view(right@));
    true
}

impl MessageContent {
    /// Whether two contents are the same.
    pub fn same_as(&self, other: &MessageContent) -> (same: bool)
        ensures
            same == (self@ == other@),
    {
        match (self, other) {
            (MessageContent::Close(), MessageContent::Close()) => true,
            (MessageContent::Prompt(left), MessageContent::Prompt(right)) => *left == *right,
            (MessageContent::GetUsersList, MessageContent::GetUsersList) => true,
            (MessageContent::ListUsers(left), MessageContent::ListUsers(right)) => same_names(
                left,
                right,
            ),
            (MessageContent::Error(left), MessageContent::Error(right)) => *left == *right,
            _ => false,
        }
    }
}

impl Clone for MessageContent {
    fn clone(&self) -> (copy: Self)
        ensures
            copy@ == self@,
    {
        match self {
            MessageContent::Close() => MessageContent::Close(),
            MessageContent::Prompt(text) => MessageContent::Prompt(text.clone()),
            MessageContent::GetUsersList => MessageContent::GetUsersList,
            MessageContent::ListUsers(names) => MessageContent::ListUsers(copy_names(names)),
            MessageContent::Error(kind) => MessageContent::Error(*kind),
        }
    }
}

impl Clone for ChatMessage {
    fn clone(&self) -> (copy: Self)
        ensures
            copy@ == self@,
    {
        ChatMessage { from: self.from.clone(), to: self.to.clone(), content: self.content.clone() }
    }
}

impl ChatMessage {
    /// Whether two messages are the same: sender, recipient and content.
    pub fn same_as(&self, other: &ChatMessage) -> (same: bool)
        ensures
            same == (self@ == other@),
    {
        self.from == other.from && self.to == other.to && self.content.same_as(&other.content)
    }

    /// A message from `from` to `to` that carries `content`.
    pub fn new(from: &str, to: &str, content: MessageContent) -> (message: Self)
        ensures
            message@ == (MessageView { from: from@, to: to@, content: content@ }),
    {
        ChatMessage { from: String::from_str(from), to: String::from_str(to), content }
    }
}

} // verus!
