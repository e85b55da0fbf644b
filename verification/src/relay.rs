//! The server's handler for one connection: what it does with each frame
//! that the client sends, with each message that is to be delivered to the
//! client, and with each failure, until the connection is over.

use vstd::prelude::*;
use crate::codec::{
    carried, decode, decoded, encode, encoded, Frame, FrameView, ProtocolError,
};
use crate::message::{ChatError, ChatMessage, ContentView, MessageContent, MessageView};
use crate::registry::{
    admission, admitted, identities, lemma_identities_registered, lemma_removed_others,
    registered, removed, sink_of, well_formed, AdmitError, Registry,
};

verus! {

/// How many messages a connection's delivery channel holds before it takes
/// no more.
pub const DELIVERY_CAPACITY: usize = 10;

/// The sender of the messages that the server writes itself.
pub open spec fn server_identity() -> Seq<char> {
    "__SERVER__"@
}

/// Where a handler is in its life: `Active` until a failure or the end of the
/// stream, `Closing` until its identity has left the registry, then `Closed`.
#[derive(Debug, Clone, Copy, PartialEq, Eq, Structural)]
pub enum RelayState {
    Active,
    Closing,
    Closed,
}

/// What can happen to a handler.
#[derive(Debug, PartialEq, Eq)]
pub enum RelayEvent {
    /// The client sent a frame.
    Inbound(Frame),
    /// The client's stream ended.
    StreamEnded,
    /// Reading from the client failed.
    ReadFailed,
    /// A message arrived on this connection's delivery channel.
    Outbound(ChatMessage),
    /// The sink that the last action named took no message: it is full, or
    /// its connection is gone.
    DeliveryFailed,
    /// Writing the last frame to the client failed.
    WriteFailed,
}

/// The mathematical value of a [`RelayEvent`].
pub enum RelayEventView {
    Inbound(FrameView),
    StreamEnded,
    ReadFailed,
    Outbound(MessageView),
    DeliveryFailed,
    WriteFailed,
}

impl View for RelayEvent {
    type V = RelayEventView;

    open spec fn view(&self) -> RelayEventView {
        match self {
            RelayEvent::Inbound(frame) => RelayEventView::Inbound(frame@),
            RelayEvent::StreamEnded => RelayEventView::StreamEnded,
            RelayEvent::ReadFailed => RelayEventView::ReadFailed,
            RelayEvent::Outbound(message) => RelayEventView::Outbound(message@),
            RelayEvent::DeliveryFailed => RelayEventView::DeliveryFailed,
            RelayEvent::WriteFailed => RelayEventView::WriteFailed,
        }
    }
}

/// What the caller is to do next.
#[derive(Debug, PartialEq, Eq)]
pub enum RelayAction<'a, S> {
    /// Nothing: wait for the next event.
    Continue,
    /// Hand the message to this sink, which belongs to the recipient.
    Forward { sink: &'a S, message: ChatMessage },
    /// Hand the message to this connection's own sink.
    Reply(ChatMessage),
    /// Write the frame to the client.
    Write(Frame),
    /// Stop serving the connection and close the handler.
    Terminate,
}

/// The mathematical value of a [`RelayAction`].
pub enum RelayActionView<S> {
    Continue,
    Forward { sink: S, message: MessageView },
    Reply(MessageView),
    Write(FrameView),
    Terminate,
}

impl<'a, S> View for RelayAction<'a, S> {
    type V = RelayActionView<S>;

    open spec fn view(&self) -> RelayActionView<S> {
        match self {
            RelayAction::Continue => RelayActionView::Continue,
            RelayAction::Forward { sink, message } => RelayActionView::Forward {
                sink: **sink,
                message: message@,
            },
            RelayAction::Reply(message) => RelayActionView::Reply(message@),
            RelayAction::Write(frame) => RelayActionView::Write(frame@),
            RelayAction::Terminate => RelayActionView::Terminate,
        }
    }
}

/// The notice that tells `identity` that the recipient is not connected.
pub open spec fn not_online_notice(identity: Seq<char>) -> MessageView {
    MessageView {
        from: server_identity(),
        to: identity,
        content: ContentView::Error(ChatError::UserNotOnline),
    }
}

/// The answer that tells `identity` who is connected.
pub open spec fn users_answer(identity: Seq<char>, names: Seq<Seq<char>>) -> MessageView {
    MessageView { from: server_identity(), to: identity, content: ContentView::ListUsers(names) }
}

/// What the handler of `identity` does with a message from its client. A
/// prompt goes to the recipient's sink as it is, or, where the recipient is
/// not registered, a notice goes back to the sender. A request for the users
/// is answered with the registered identities. Every other message is passed
/// over.
pub open spec fn routed<S>(
    entries: Seq<(Seq<char>, S)>,
    identity: Seq<char>,
    message: MessageView,
) -> RelayActionView<S> {
    match message.content {
        ContentView::Prompt(_) => match sink_of(entries, message.to) {
            Some(sink) => RelayActionView::Forward { sink, message },
            None => RelayActionView::Reply(not_online_notice(identity)),
        },
        ContentView::GetUsersList => RelayActionView::Reply(
            users_answer(identity, identities(entries)),
        ),
        _ => RelayActionView::Continue,
    }
}

/// What an active handler does with a frame from its client: a frame that
/// does not decode is passed over, and a message is routed.
pub open spec fn received<S>(
    entries: Seq<(Seq<char>, S)>,
    identity: Seq<char>,
    frame: FrameView,
) -> RelayActionView<S> {
    match decoded(frame) {
        Ok(message) => routed(entries, identity, message),
        Err(_) => RelayActionView::Continue,
    }
}

/// What an active handler does with a message that is to be delivered to its
/// client: it writes the frame that carries the message, or, where there is
/// none, passes the message over.
pub open spec fn delivered<S>(message: MessageView) -> RelayActionView<S> {
    match encoded(message) {
        Ok(frame) => RelayActionView::Write(frame),
        Err(_) => RelayActionView::Continue,
    }
}

/// The state after an event and the action that it calls for. Only an active
/// handler works; the end of the stream and every failure make it `Closing`.
pub open spec fn stepped<S>(
    state: RelayState,
    entries: Seq<(Seq<char>, S)>,
    identity: Seq<char>,
    event: RelayEventView,
) -> (RelayState, RelayActionView<S>) {
    if state != RelayState::Active {
        (state, RelayActionView::Terminate)
    } else {
        match event {
            RelayEventView::Inbound(frame) => (state, received(entries, identity, frame)),
            RelayEventView::Outbound(message) => (state, delivered(message)),
            _ => (RelayState::Closing, RelayActionView::Terminate),
        }
    }
}

/// The handler of one connection.
#[derive(Debug)]
pub struct Relay {
    identity: String,
    state: RelayState,
}

/// The mathematical value of a [`Relay`].
pub struct RelayView {
    pub identity: Seq<char>,
    pub state: RelayState,
}

impl View for Relay {
    type V = RelayView;

    closed spec fn view(&self) -> RelayView {
        RelayView { identity: self.identity@, state: self.state }
    }
}

impl Relay {
    /// Admits a connection: registers `identity` with `sink` and gives the
    /// active handler of the connection, or tells why the identity is refused;
    /// the registry then stays as it was.
    pub fn accept<S>(registry: &mut Registry<S>, identity: String, sink: S) -> (relay: Result<
        Relay,
        AdmitError,
    >)
        ensures
            final(registry)@ == admitted(old(registry)@, identity@, sink),
            match relay {
                Ok(relay) => admission(old(registry)@, identity@) is Ok && relay@ == (RelayView {
                    identity: identity@,
                    state: RelayState::Active,
                }),
                Err(error) => admission(old(registry)@, identity@) == Err::<(), AdmitError>(error),
            },
    {
        let name = identity.clone();
        match registry.try_admit(identity, sink) {
            Ok(()) => Ok(Relay { identity: name, state: RelayState::Active }),
            Err(error) => Err(error),
        }
    }

    /// The identity that the connection is registered under.
    pub fn identity(&self) -> (identity: &str)
        ensures
            identity@ == self@.identity,
    {
        self.identity.as_str()
    }

    /// Where the handler is in its life.
    pub fn state(&self) -> (state: RelayState)
        ensures
            state == self@.state,
    {
        self.state
    }

    /// What to do with a message that the client sent.
    pub fn route<'a, S>(&self, registry: &'a Registry<S>, message: ChatMessage) -> (action:
        RelayAction<'a, S>)
        ensures
            action@ == routed(registry@, self@.identity, message@),
    {
        match &message.content {
            MessageContent::Prompt(_) => match registry.lookup(message.to.as_str()) {
                Some(sink) => RelayAction::Forward { sink, message },
                None => RelayAction::Reply(
                    ChatMessage::new(
                        "__SERVER__",
                        self.identity.as_str(),
                        MessageContent::Error(ChatError::UserNotOnline),
                    ),
                ),
            },
            MessageContent::GetUsersList => RelayAction::Reply(
                ChatMessage::new(
                    "__SERVER__",
                    self.identity.as_str(),
                    MessageContent::ListUsers(registry.snapshot()),
                ),
            ),
            _ => RelayAction::Continue,
        }
    }

    /// What to do after the encoder was asked for the frame of a message that
    /// is to be delivered to the client: write the frame, or, where there is
    /// none, pass the message over.
    pub fn written<'a, S>(frame: Result<Frame, ProtocolError>) -> (action: RelayAction<'a, S>)
        ensures
            action@ == match frame {
                Ok(frame) => RelayActionView::<S>::Write(frame@),
                Err(_) => RelayActionView::<S>::Continue,
            },
    {
        match frame {
            Ok(frame) => RelayAction::Write(frame),
            Err(_) => RelayAction::Continue,
        }
    }

    /// Takes one event and tells what to do next: see [`stepped`].
    pub fn step<'a, S>(&mut self, registry: &'a Registry<S>, event: RelayEvent) -> (action:
        RelayAction<'a, S>)
        ensures
            final(self)@.identity == old(self)@.identity,
            (final(self)@.state, action@) == stepped(
                old(self)@.state,
                registry@,
                old(self)@.identity,
                event@,
            ),
    {
        match self.state {
            RelayState::Active => {},
            _ => {
                return RelayAction::Terminate;
            },
        }
        match event {
            RelayEvent::Inbound(frame) => match decode(&frame) {
                Ok(message) => self.route(registry, message),
                Err(_) => RelayAction::Continue,
            },
            RelayEvent::Outbound(message) => Relay::written(encode(&message)),
            _ => {
                self.state = RelayState::Closing;
                RelayAction::Terminate
            },
        }
    }

    /// Ends the handler: its identity leaves the registry, once. Closing a
    /// handler that is closed changes nothing.
    pub fn close<S>(&mut self, registry: &mut Registry<S>)
        ensures
            final(self)@ == (RelayView {
                identity: old(self)@.identity,
                state: RelayState::Closed,
            }),
            final(registry)@ == if old(self)@.state == RelayState::Closed {
                old(registry)@
            } else {
                removed(old(registry)@, old(self)@.identity)
            },
    {
        match self.state {
            RelayState::Closed => {},
            _ => {
                registry.remove(self.identity.as_str());
                self.state = RelayState::Closed;
            },
        }
    }
}

/// A prompt to a registered identity is forwarded to that identity's sink
/// and to no other, with sender, recipient and content as they came in,
/// whoever sent it.
pub proof fn lemma_prompt_forwarded<S>(
    entries: Seq<(Seq<char>, S)>,
    sender: Seq<char>,
    message: MessageView,
)
    requires
        well_formed(entries),
        message.content is Prompt,
        registered(entries, message.to),
    ensures
        routed(entries, sender, message) == (RelayActionView::Forward {
            sink: sink_of(entries, message.to)->Some_0,
            message,
        }),
{
}

/// A prompt to an identity that is not registered is answered with one notice
/// to the sender, `UserNotOnline`, and nothing is handed to any other sink.
pub proof fn lemma_prompt_to_absent<S>(
    entries: Seq<(Seq<char>, S)>,
    sender: Seq<char>,
    message: MessageView,
)
    requires
        message.content is Prompt,
        !registered(entries, message.to),
    ensures
        routed(entries, sender, message) == RelayActionView::<S>::Reply(not_online_notice(sender)),
        not_online_notice(sender).to == sender,
        not_online_notice(sender).content == ContentView::Error(ChatError::UserNotOnline),
{
}

/// A request for the users is answered to the one who asked, with exactly
/// the identities that are registered at that moment.
pub proof fn lemma_users_listed<S>(
    entries: Seq<(Seq<char>, S)>,
    asker: Seq<char>,
    request: MessageView,
)
    requires
        request.content is GetUsersList,
    ensures
        routed(entries, asker, request) == RelayActionView::<S>::Reply(
            users_answer(asker, identities(entries)),
        ),
        forall|identity: Seq<char>| #[trigger]
            identities(entries).contains(identity) <==> registered(entries, identity),
{
    assert forall|identity: Seq<char>| #[trigger]
        identities(entries).contains(identity) <==> registered(entries, identity) by {
        lemma_identities_registered(entries, identity);
    }
}

/// After a connection is over, its identity is missing from every answer to a
/// request for the users, the others are listed as before, and the identity
/// can be admitted again.
pub proof fn lemma_closed_connection_gone<S>(
    entries: Seq<(Seq<char>, S)>,
    gone: Seq<char>,
    asker: Seq<char>,
    request: MessageView,
)
    requires
        well_formed(entries),
        request.content is GetUsersList,
    ensures
        routed(removed(entries, gone), asker, request) == RelayActionView::<S>::Reply(
            users_answer(asker, identities(removed(entries, gone))),
        ),
        !identities(removed(entries, gone)).contains(gone),
        forall|other: Seq<char>|
            other != gone ==> (#[trigger] identities(removed(entries, gone)).contains(other)
                <==> identities(entries).contains(other)),
        gone.len() > 0 ==> admission(removed(entries, gone), gone) is Ok,
{
    assert forall|other: Seq<char>| other != gone implies (#[trigger] identities(
        removed(entries, gone),
    ).contains(other) <==> identities(entries).contains(other)) by {
        lemma_removed_others(entries, gone, other);
        lemma_identities_registered(entries, other);
        lemma_identities_registered(removed(entries, gone), other);
    }
}

/// A frame that a handler writes for a message decodes to what the message
/// carries; a `Close` is always written, as the close frame.
pub proof fn lemma_written_faithful<S>(
    entries: Seq<(Seq<char>, S)>,
    identity: Seq<char>,
    message: MessageView,
)
    ensures
        stepped(RelayState::Active, entries, identity, RelayEventView::Outbound(message)).1
            matches RelayActionView::Write(frame) ==> decoded(frame) == Ok::<
            MessageView,
            ProtocolError,
        >(carried(message)),
        message.content is Close ==> stepped(
            RelayState::Active,
            entries,
            identity,
            RelayEventView::Outbound(message),
        ) == (RelayState::Active, RelayActionView::<S>::Write(FrameView::Close)),
{
}

/// A handler that is not active does no work: whatever the event, it stays
/// as it is and asks to be closed.
pub proof fn lemma_inactive_terminates<S>(
    state: RelayState,
    entries: Seq<(Seq<char>, S)>,
    identity: Seq<char>,
    event: RelayEventView,
)
    requires
        state != RelayState::Active,
    ensures
        stepped(state, entries, identity, event) == (state, RelayActionView::<S>::Terminate),
{
}

/// A frame that does not decode neither ends the connection nor reaches
/// anyone.
pub proof fn lemma_bad_frame_passed_over<S>(
    entries: Seq<(Seq<char>, S)>,
    identity: Seq<char>,
    frame: FrameView,
)
    requires
        decoded(frame) is Err,
    ensures
        stepped(RelayState::Active, entries, identity, RelayEventView::Inbound(frame)) == (
            RelayState::Active,
            RelayActionView::<S>::Continue,
        ),
{
}

} // verus!
