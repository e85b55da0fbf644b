//! What the surrounding application can ask of a connected client.

use vstd::prelude::*;
use crate::settings::{Settings, SettingsView};

verus! {

/// A command to the client.
#[derive(Debug, PartialEq, Eq)]
pub enum Command {
    /// Ask the server who is connected.
    ListUsers,
    /// Drop the connection and connect again, with these settings.
    Reconnect(Settings),
    /// Send a text: the recipient, then the text.
    SendPrompt(String, String),
}

/// The mathematical value of a [`Command`].
pub enum CommandView {
    ListUsers,
    Reconnect(SettingsView),
    SendPrompt(Seq<char>, Seq<char>),
}

impl View for Command {
    type V = CommandView;

    open spec fn view(&self) -> CommandView {
        match self {
            Command::ListUsers => CommandView::ListUsers,
            Command::Reconnect(settings) => CommandView::Reconnect(settings@),
            Command::SendPrompt(receiver, text) => CommandView::SendPrompt(receiver@, text@),
        }
    }
}

} // verus!
