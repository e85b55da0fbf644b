//! The client's side of one connection: the messages it sends, what its
//! reader does with each thing it reads, and the cache that holds the latest
//! message for the application.

use vstd::prelude::*;
use crate::codec::{decode, decoded, close_message, Frame, FrameView, ProtocolError};
use crate::message::{
    lemma_empty_text, ChatMessage, ContentView, MessageContent, MessageView,
};

verus! {

/// The prompt that `identity` sends to `receiver`.
pub open spec fn prompt_message(
    identity: Seq<char>,
    receiver: Seq<char>,
    text: Seq<char>,
) -> MessageView {
    MessageView { from: identity, to: receiver, content: ContentView::Prompt(text) }
}

/// The request for the users: it names neither sender nor recipient.
pub open spec fn users_request() -> MessageView {
    MessageView { from: Seq::empty(), to: Seq::empty(), content: ContentView::GetUsersList }
}

/// Builds the prompt that `identity` sends to `receiver`.
pub fn prompt(identity: &str, receiver: &str, text: String) -> (message: ChatMessage)
    ensures
        message@ == prompt_message(identity@, receiver@, text@),
{
    ChatMessage::new(identity, receiver, MessageContent::Prompt(text))
}

/// Builds the request for the users.
pub fn request_users() -> (message: ChatMessage)
    ensures
        message@ == users_request(),
{
    let message = ChatMessage::new("", "", MessageContent::GetUsersList);
    proof {
        lemma_empty_text();
    }
    message
}

/// Builds the message that ends a connection in order.
pub fn farewell() -> (message: ChatMessage)
    ensures
        message@ == close_message(),
{
    let message = ChatMessage::new("", "", MessageContent::Close());
    proof {
        lemma_empty_text();
    }
    message
}

/// What the reader of a connection can meet.
#[derive(Debug, PartialEq, Eq)]
pub enum ReadEvent {
    /// The server sent a frame.
    Frame(Frame),
    /// Reading failed.
    Failed,
    /// The stream ended.
    Ended,
}

/// The mathematical value of a [`ReadEvent`].
pub enum ReadEventView {
    Frame(FrameView),
    Failed,
    Ended,
}

impl View for ReadEvent {
    type V = ReadEventView;

    open spec fn view(&self) -> ReadEventView {
        match self {
            ReadEvent::Frame(frame) => ReadEventView::Frame(frame@),
            ReadEvent::Failed => ReadEventView::Failed,
            ReadEvent::Ended => ReadEventView::Ended,
        }
    }
}

/// What the reader does next.
#[derive(Debug, PartialEq, Eq)]
pub enum ReadAction {
    /// Put the message into the cache and read on.
    Publish(ChatMessage),
    /// Read on: the frame was no message.
    Skip,
    /// Stop reading: the session is over.
    Stop,
}

/// The mathematical value of a [`ReadAction`].
pub enum ReadActionView {
    Publish(MessageView),
    Skip,
    Stop,
}

impl View for ReadAction {
    type V = ReadActionView;

    open spec fn view(&self) -> ReadActionView {
        match self {
            ReadAction::Publish(message) => ReadActionView::Publish(message@),
            ReadAction::Skip => ReadActionView::Skip,
            ReadAction::Stop => ReadActionView::Stop,
        }
    }
}

/// What the reader does with what it read: a frame that decodes is
/// published, one that does not is skipped, and a failure or the end of the
/// stream stops the reader.
pub open spec fn read_outcome(event: ReadEventView) -> ReadActionView {
    match event {
        ReadEventView::Frame(frame) => match decoded(frame) {
            Ok(message) => ReadActionView::Publish(message),
            Err(_) => ReadActionView::Skip,
        },
        _ => ReadActionView::Stop,
    }
}

/// What the reader does after a frame was decoded.
pub fn on_decoded(decoded: Result<ChatMessage, ProtocolError>) -> (action: ReadAction)
    ensures
        action@ == match decoded {
            Ok(message) => ReadActionView::Publish(message@),
            Err(_) => ReadActionView::Skip,
        },
{
    match decoded {
        Ok(message) => ReadAction::Publish(message),
        Err(_) => ReadAction::Skip,
    }
}

/// What the reader does with what it read.
pub fn on_read(event: ReadEvent) -> (action: ReadAction)
    ensures
        action@ == read_outcome(event@),
{
    match event {
        ReadEvent::Frame(frame) => on_decoded(decode(&frame)),
        _ => ReadAction::Stop,
    }
}

/// The cache between the reader and the application: one slot that holds the
/// latest message. A new message overwrites the one before it, whether or not
/// it was read.
#[derive(Debug)]
pub struct EventCache {
    latest: ChatMessage,
    unread: bool,
}

/// The mathematical value of an [`EventCache`].
pub struct EventCacheView {
    /// The message in the slot.
    pub latest: MessageView,
    /// Whether it arrived after the last reading.
    pub unread: bool,
}

impl EventCacheView {
    /// The cache after a message has arrived.
    pub open spec fn published(self, message: MessageView) -> EventCacheView {
        EventCacheView { latest: message, unread: true }
    }

    /// The cache after each of `messages` has arrived, in order.
    pub open spec fn published_all(self, messages: Seq<MessageView>) -> EventCacheView
        decreases messages.len(),
    {
        if messages.len() == 0 {
            self
        } else {
            self.published_all(messages.drop_last()).published(messages.last())
        }
    }

    /// What a reading gives: the message in the slot, if it is unread.
    pub open spec fn pending(self) -> Option<MessageView> {
        if self.unread {
            Some(self.latest)
        } else {
            None
        }
    }

    /// The cache after a reading.
    pub open spec fn seen(self) -> EventCacheView {
        EventCacheView { latest: self.latest, unread: false }
    }
}

impl View for EventCache {
    type V = EventCacheView;

    closed spec fn view(&self) -> EventCacheView {
        EventCacheView { latest: self.latest@, unread: self.unread }
    }
}

/// A message, if there is one, by its value.
pub open spec fn message_view(message: Option<ChatMessage>) -> Option<MessageView> {
    match message {
        Some(message) => Some(message@),
        None => None,
    }
}

impl EventCache {
    /// A cache in which nothing has arrived: it holds the close message, read.
    pub fn new() -> (cache: Self)
        ensures
            cache@ == (EventCacheView { latest: close_message(), unread: false }),
    {
        EventCache { latest: farewell(), unread: false }
    }

    /// Puts a message into the slot, in place of the one that was there.
    pub fn publish(&mut self, message: ChatMessage)
        ensures
            final(self)@ == old(self)@.published(message@),
    {
        self.latest = message;
        self.unread = true;
    }

    /// Whether a message arrived after the last reading.
    pub fn has_changed(&self) -> (changed: bool)
        ensures
            changed == self@.unread,
    {
        self.unread
    }

    /// The message in the slot, read or not.
    pub fn latest(&self) -> (message: &ChatMessage)
        ensures
            message@ == self@.latest,
    {
        &self.latest
    }

    /// Reads the slot: the latest message if it is unread, and nothing
    /// otherwise. The message stays in the slot, as read.
    pub fn take(&mut self) -> (message: Option<ChatMessage>)
        ensures
            message_view(message) == old(self)@.pending(),
            final(self)@ == old(self)@.seen(),
    {
        if self.unread {
            self.unread = false;
            Some(self.latest.clone())
        } else {
            None
        }
    }
}

/// The last message wins: after any number of messages have arrived, one or
/// more, without a reading between them, a reading gives the last of them
/// and a second reading gives nothing.
pub proof fn lemma_last_value_wins(cache: EventCacheView, messages: Seq<MessageView>)
    requires
        messages.len() > 0,
    ensures
        cache.published_all(messages).pending() == Some(messages.last()),
        cache.published_all(messages).seen().pending() is None,
{
}

/// What the application is shown when a message has arrived.
#[derive(Debug, PartialEq, Eq)]
pub enum Shown {
    /// The identities that are connected.
    Users(Vec<String>),
    /// A text from another user.
    Prompt(String),
    /// Nothing: the message is not for display.
    Nothing,
}

/// The mathematical value of [`Shown`].
pub enum ShownView {
    Users(Seq<Seq<char>>),
    Prompt(Seq<char>),
    Nothing,
}

impl View for Shown {
    type V = ShownView;

    open spec fn view(&self) -> ShownView {
        match self {
            Shown::Users(names) => ShownView::Users(crate::message::names_view(names@)),
            Shown::Prompt(text) => ShownView::Prompt(text@),
            Shown::Nothing => ShownView::Nothing,
        }
    }
}

/// What a message shows: a list of users, a prompt's text, or nothing.
pub open spec fn shown(message: MessageView) -> ShownView {
    match message.content {
        ContentView::ListUsers(names) => ShownView::Users(names),
        ContentView::Prompt(text) => ShownView::Prompt(text),
        _ => ShownView::Nothing,
    }
}

/// Tells what to show for a message that has arrived.
pub fn present(message: ChatMessage) -> (display: Shown)
    ensures
        display@ == shown(message@),
{
    match message.content {
        MessageContent::ListUsers(names) => Shown::Users(names),
        MessageContent::Prompt(text) => Shown::Prompt(text),
        _ => Shown::Nothing,
    }
}

} // verus!
