//! The way of a message from one client to another, through both handlers
//! and the recipient's reader.

use vstd::prelude::*;
use crate::codec::{decoded, FrameView, ProtocolError};
use crate::message::MessageView;
use crate::registry::{registered, sink_of, well_formed};
use crate::relay::{
    lemma_written_faithful, stepped, RelayActionView, RelayEventView, RelayState,
};
use crate::session::{read_outcome, ReadActionView, ReadEventView};

verus! {

/// The way of a prompt from one client to another that is registered. The
/// sender's handler forwards it to the recipient's sink as it came in. Where
/// the recipient's handler then writes a frame, the recipient's reader
/// publishes the message with sender, recipient and text as they were sent.
pub proof fn lemma_prompt_delivered<S>(
    entries: Seq<(Seq<char>, S)>,
    sender: Seq<char>,
    frame: FrameView,
    message: MessageView,
    written: FrameView,
)
    requires
        well_formed(entries),
        decoded(frame) == Ok::<MessageView, ProtocolError>(message),
        message.content is Prompt,
        registered(entries, message.to),
        stepped(RelayState::Active, entries, message.to, RelayEventView::Outbound(message)) == (
            RelayState::Active,
            RelayActionView::<S>::Write(written),
        ),
    ensures
        stepped(RelayState::Active, entries, sender, RelayEventView::Inbound(frame)) == (
            RelayState::Active,
            RelayActionView::Forward { sink: sink_of(entries, message.to)->Some_0, message },
        ),
        read_outcome(ReadEventView::Frame(written)) == ReadActionView::Publish(message),
{
    lemma_written_faithful(entries, message.to, message);
}

} // verus!
