//! The client's reconnect supervisor: it keeps one session alive against a
//! network that fails, with a fixed interval between its attempts, and it
//! passes commands to the session and messages to the application.

use vstd::prelude::*;
use crate::command::{Command, CommandView};
use crate::message::{ChatMessage, MessageView};
use crate::session::{
    present, prompt, prompt_message, request_users, shown, users_request, Shown, ShownView,
};
use crate::settings::{Settings, SettingsView};

verus! {

/// The seconds between two attempts to connect.
pub const RETRY_INTERVAL_SECS: u64 = 5;

/// The seconds between two requests for the users while a session is live.
pub const REFRESH_INTERVAL_SECS: u64 = 10;

/// Where the supervisor stands.
#[derive(Debug, Clone, Copy, PartialEq, Eq, Structural)]
pub enum LinkState {
    /// The settings name no identity or no server: nothing is attempted.
    Unconfigured,
    /// No session; the next retry tick starts an attempt.
    Disconnected,
    /// An attempt to connect is under way.
    Connecting,
    /// A session is live.
    Connected,
    /// The process was interrupted: nothing is done any more.
    Stopped,
}

/// What can happen to the supervisor.
#[derive(Debug, PartialEq, Eq)]
pub enum SupervisorEvent {
    /// The retry interval has passed.
    RetryTick,
    /// The attempt to connect succeeded.
    ConnectSucceeded,
    /// The attempt to connect failed.
    ConnectFailed,
    /// The refresh interval has passed.
    RefreshTick,
    /// The application issued a command.
    Command(Command),
    /// A message arrived from the server.
    Arrived(ChatMessage),
    /// The session's stream ended or failed.
    StreamClosed,
    /// The process was interrupted.
    Interrupted,
}

/// The mathematical value of a [`SupervisorEvent`].
pub enum SupervisorEventView {
    RetryTick,
    ConnectSucceeded,
    ConnectFailed,
    RefreshTick,
    Command(CommandView),
    Arrived(MessageView),
    StreamClosed,
    Interrupted,
}

impl View for SupervisorEvent {
    type V = SupervisorEventView;

    open spec fn view(&self) -> SupervisorEventView {
        match self {
            SupervisorEvent::RetryTick => SupervisorEventView::RetryTick,
            SupervisorEvent::ConnectSucceeded => SupervisorEventView::ConnectSucceeded,
            SupervisorEvent::ConnectFailed => SupervisorEventView::ConnectFailed,
            SupervisorEvent::RefreshTick => SupervisorEventView::RefreshTick,
            SupervisorEvent::Command(command) => SupervisorEventView::Command(command@),
            SupervisorEvent::Arrived(message) => SupervisorEventView::Arrived(message@),
            SupervisorEvent::StreamClosed => SupervisorEventView::StreamClosed,
            SupervisorEvent::Interrupted => SupervisorEventView::Interrupted,
        }
    }
}

/// What the caller is to do next.
#[derive(Debug, PartialEq, Eq)]
pub enum SupervisorAction {
    /// Nothing: wait for the next event.
    Wait,
    /// Attempt to connect to this address, once.
    Connect(String),
    /// Discard the session, if there is one, and attempt to connect to this
    /// address at once.
    Reconnect(String),
    /// Send this message through the session.
    Send(ChatMessage),
    /// Show this to the user.
    Show(Shown),
    /// Discard the session.
    Discard,
    /// Send the farewell through the session, as well as that can be done,
    /// and end the process.
    Close,
    /// End the process.
    Exit,
}

/// The mathematical value of a [`SupervisorAction`].
pub enum SupervisorActionView {
    Wait,
    Connect(Seq<char>),
    Reconnect(Seq<char>),
    Send(MessageView),
    Show(ShownView),
    Discard,
    Close,
    Exit,
}

impl View for SupervisorAction {
    type V = SupervisorActionView;

    open spec fn view(&self) -> SupervisorActionView {
        match self {
            SupervisorAction::Wait => SupervisorActionView::Wait,
            SupervisorAction::Connect(address) => SupervisorActionView::Connect(address@),
            SupervisorAction::Reconnect(address) => SupervisorActionView::Reconnect(address@),
            SupervisorAction::Send(message) => SupervisorActionView::Send(message@),
            SupervisorAction::Show(display) => SupervisorActionView::Show(display@),
            SupervisorAction::Discard => SupervisorActionView::Discard,
            SupervisorAction::Close => SupervisorActionView::Close,
            SupervisorAction::Exit => SupervisorActionView::Exit,
        }
    }
}

impl SupervisorActionView {
    /// Whether the action starts an attempt to connect.
    pub open spec fn is_attempt(self) -> bool {
        self is Connect || self is Reconnect
    }
}

/// The mathematical value of a [`Supervisor`].
pub struct SupervisorView {
    pub settings: SettingsView,
    pub state: LinkState,
}

impl SupervisorView {
    /// The supervisor in another state, with the same settings.
    pub open spec fn moved(self, state: LinkState) -> SupervisorView {
        SupervisorView { settings: self.settings, state }
    }
}

/// Which of the events that come from outside the supervisor waits for.
#[derive(Debug, Clone, Copy, PartialEq, Eq, Structural)]
pub struct Awaited {
    /// The passing of the retry interval.
    pub retry_tick: bool,
    /// The passing of the refresh interval.
    pub refresh_tick: bool,
    /// Commands of the application; while they are not waited for they stay
    /// where they are queued.
    pub commands: bool,
    /// Messages from the server, and the end of its stream.
    pub arrivals: bool,
}

/// What is waited for in each state: without settings a command that brings
/// some; without a session the next retry tick; during an attempt only its
/// outcome; with a session the refresh tick, commands and what the server
/// sends. An interrupt is waited for in every state but the last.
pub open spec fn awaited(state: LinkState) -> Awaited {
    Awaited {
        retry_tick: state == LinkState::Disconnected,
        refresh_tick: state == LinkState::Connected,
        commands: state == LinkState::Unconfigured || state == LinkState::Connected,
        arrivals: state == LinkState::Connected,
    }
}

/// Whether an event is waited for in a state.
pub open spec fn is_awaited(state: LinkState, event: SupervisorEventView) -> bool {
    match event {
        SupervisorEventView::RetryTick => awaited(state).retry_tick,
        SupervisorEventView::RefreshTick => awaited(state).refresh_tick,
        SupervisorEventView::Command(_) => awaited(state).commands,
        SupervisorEventView::Arrived(_) => awaited(state).arrivals,
        SupervisorEventView::StreamClosed => awaited(state).arrivals,
        SupervisorEventView::ConnectSucceeded => state == LinkState::Connecting,
        SupervisorEventView::ConnectFailed => state == LinkState::Connecting,
        SupervisorEventView::Interrupted => state != LinkState::Stopped,
    }
}

/// Where a supervisor starts: disconnected where the settings can be used,
/// and unconfigured where they cannot.
pub open spec fn started(settings: SettingsView) -> SupervisorView {
    SupervisorView {
        settings,
        state: if settings.checked() is Ok {
            LinkState::Disconnected
        } else {
            LinkState::Unconfigured
        },
    }
}

/// What new settings lead to: an attempt at once where they can be used, and
/// the unconfigured state where they cannot.
pub open spec fn adopted(settings: SettingsView) -> (SupervisorView, SupervisorActionView) {
    if settings.checked() is Ok {
        (
            SupervisorView { settings, state: LinkState::Connecting },
            SupervisorActionView::Reconnect(settings.target()),
        )
    } else {
        (SupervisorView { settings, state: LinkState::Unconfigured }, SupervisorActionView::Discard)
    }
}

/// What a command leads to where commands are waited for: new settings are
/// adopted, and the other commands go through the session while there is
/// one. Everywhere else a command is passed over.
pub open spec fn commanded(supervisor: SupervisorView, command: CommandView) -> (
    SupervisorView,
    SupervisorActionView,
) {
    match command {
        CommandView::Reconnect(settings) => if awaited(supervisor.state).commands {
            adopted(settings)
        } else {
            (supervisor, SupervisorActionView::Wait)
        },
        CommandView::ListUsers => if supervisor.state == LinkState::Connected {
            (supervisor, SupervisorActionView::Send(users_request()))
        } else {
            (supervisor, SupervisorActionView::Wait)
        },
        CommandView::SendPrompt(receiver, text) => if supervisor.state == LinkState::Connected {
            (
                supervisor,
                SupervisorActionView::Send(
                    prompt_message(supervisor.settings.username, receiver, text),
                ),
            )
        } else {
            (supervisor, SupervisorActionView::Wait)
        },
    }
}

/// What the arrival of a message leads to while a session is live.
pub open spec fn displayed(message: MessageView) -> SupervisorActionView {
    match shown(message) {
        ShownView::Nothing => SupervisorActionView::Wait,
        display => SupervisorActionView::Show(display),
    }
}

/// The supervisor after an event, and the action that the event calls for.
///
/// An attempt to connect starts at a retry tick, in the disconnected state,
/// and by new settings; at nothing else. What is not waited for (see
/// [`awaited`]) is passed over. A failed attempt leads back to the
/// disconnected state, where the next tick is waited for. The end of the
/// stream discards the session and leads there too. An interrupt stops the
/// supervisor, after a farewell where a session is live.
pub open spec fn advanced(supervisor: SupervisorView, event: SupervisorEventView) -> (
    SupervisorView,
    SupervisorActionView,
) {
    let state = supervisor.state;
    if state == LinkState::Stopped {
        (supervisor, SupervisorActionView::Wait)
    } else {
        match event {
            SupervisorEventView::Interrupted => (
                supervisor.moved(LinkState::Stopped),
                if state == LinkState::Connected {
                    SupervisorActionView::Close
                } else {
                    SupervisorActionView::Exit
                },
            ),
            SupervisorEventView::Command(command) => commanded(supervisor, command),
            SupervisorEventView::RetryTick => if state != LinkState::Disconnected {
                (supervisor, SupervisorActionView::Wait)
            } else if supervisor.settings.checked() is Ok {
                (
                    supervisor.moved(LinkState::Connecting),
                    SupervisorActionView::Connect(supervisor.settings.target()),
                )
            } else {
                (supervisor.moved(LinkState::Unconfigured), SupervisorActionView::Wait)
            },
            SupervisorEventView::ConnectSucceeded => if state == LinkState::Connecting {
                (supervisor.moved(LinkState::Connected), SupervisorActionView::Wait)
            } else {
                (supervisor, SupervisorActionView::Discard)
            },
            SupervisorEventView::ConnectFailed => if state == LinkState::Connecting {
                (supervisor.moved(LinkState::Disconnected), SupervisorActionView::Wait)
            } else {
                (supervisor, SupervisorActionView::Wait)
            },
            SupervisorEventView::RefreshTick => if state == LinkState::Connected {
                (supervisor, SupervisorActionView::Send(users_request()))
            } else {
                (supervisor, SupervisorActionView::Wait)
            },
            SupervisorEventView::Arrived(message) => if state == LinkState::Connected {
                (supervisor, displayed(message))
            } else {
                (supervisor, SupervisorActionView::Wait)
            },
            SupervisorEventView::StreamClosed => if state == LinkState::Connected {
                (supervisor.moved(LinkState::Disconnected), SupervisorActionView::Discard)
            } else {
                (supervisor, SupervisorActionView::Wait)
            },
        }
    }
}

/// The supervisor after a sequence of events.
pub open spec fn run(supervisor: SupervisorView, events: Seq<SupervisorEventView>) -> SupervisorView
    decreases events.len(),
{
    if events.len() == 0 {
        supervisor
    } else {
        advanced(run(supervisor, events.drop_last()), events.last()).0
    }
}

/// How many attempts to connect a sequence of events leads to.
pub open spec fn attempts(supervisor: SupervisorView, events: Seq<SupervisorEventView>) -> nat
    decreases events.len(),
{
    if events.len() == 0 {
        0
    } else {
        let before = attempts(supervisor, events.drop_last());
        if advanced(run(supervisor, events.drop_last()), events.last()).1.is_attempt() {
            before + 1
        } else {
            before
        }
    }
}

/// How many retry ticks a sequence of events holds.
pub open spec fn retry_ticks(events: Seq<SupervisorEventView>) -> nat
    decreases events.len(),
{
    if events.len() == 0 {
        0
    } else if events.last() is RetryTick {
        retry_ticks(events.drop_last()) + 1
    } else {
        retry_ticks(events.drop_last())
    }
}

/// The events that a server causes which refuses `refused` attempts, each
/// made at a retry tick, and accepts the next one.
pub open spec fn refused_then_accepted(refused: nat) -> Seq<SupervisorEventView>
    decreases refused,
{
    if refused == 0 {
        seq![SupervisorEventView::RetryTick, SupervisorEventView::ConnectSucceeded]
    } else {
        seq![SupervisorEventView::RetryTick, SupervisorEventView::ConnectFailed]
            + refused_then_accepted((refused - 1) as nat)
    }
}

/// Running through two sequences of events, one after the other, is running
/// through both at once; the attempts and the retry ticks add up.
pub proof fn lemma_run_concat(
    supervisor: SupervisorView,
    first: Seq<SupervisorEventView>,
    second: Seq<SupervisorEventView>,
)
    ensures
        run(supervisor, first + second) == run(run(supervisor, first), second),
        attempts(supervisor, first + second) == attempts(supervisor, first) + attempts(
            run(supervisor, first),
            second,
        ),
        retry_ticks(first + second) == retry_ticks(first) + retry_ticks(second),
    decreases second.len(),
{
    if second.len() > 0 {
        assert((first + second).drop_last() =~= first + second.drop_last());
        lemma_run_concat(supervisor, first, second.drop_last());
    }
}

/// An event that is not waited for changes nothing and asks for nothing,
/// but for a session that nobody waited for, which is to be discarded.
pub proof fn lemma_unawaited_passed_over(supervisor: SupervisorView, event: SupervisorEventView)
    requires
        !is_awaited(supervisor.state, event),
    ensures
        advanced(supervisor, event).0 == supervisor,
        advanced(supervisor, event).1 == if event is ConnectSucceeded && supervisor.state
            != LinkState::Stopped {
            SupervisorActionView::Discard
        } else {
            SupervisorActionView::Wait
        },
{
}

/// With a server that refuses any number of attempts and then accepts one,
/// a disconnected supervisor whose settings can be used becomes connected by
/// itself, with one attempt for each retry tick.
pub proof fn lemma_reconnects_by_itself(supervisor: SupervisorView, refused: nat)
    requires
        supervisor.state == LinkState::Disconnected,
        supervisor.settings.checked() is Ok,
    ensures
        run(supervisor, refused_then_accepted(refused)) == supervisor.moved(LinkState::Connected),
        attempts(supervisor, refused_then_accepted(refused)) == refused + 1,
        retry_ticks(refused_then_accepted(refused)) == refused + 1,
    decreases refused,
{
    reveal_with_fuel(run, 3);
    reveal_with_fuel(attempts, 3);
    reveal_with_fuel(retry_ticks, 3);
    if refused > 0 {
        let round = seq![SupervisorEventView::RetryTick, SupervisorEventView::ConnectFailed];
        lemma_run_concat(supervisor, round, refused_then_accepted((refused - 1) as nat));
        lemma_reconnects_by_itself(supervisor, (refused - 1) as nat);
    }
}

/// Without a command from the application, an attempt to connect is made at a
/// retry tick only: whatever happens, there are never more attempts than
/// retry ticks.
pub proof fn lemma_one_attempt_per_tick(
    supervisor: SupervisorView,
    events: Seq<SupervisorEventView>,
)
    requires
        forall|i: int| 0 <= i < events.len() ==> !(#[trigger] events[i] is Command),
    ensures
        attempts(supervisor, events) <= retry_ticks(events),
    decreases events.len(),
{
    if events.len() > 0 {
        lemma_one_attempt_per_tick(supervisor, events.drop_last());
    }
}

/// The reconnect supervisor of one client.
#[derive(Debug)]
pub struct Supervisor {
    settings: Settings,
    state: LinkState,
}

impl View for Supervisor {
    type V = SupervisorView;

    closed spec fn view(&self) -> SupervisorView {
        SupervisorView { settings: self.settings@, state: self.state }
    }
}

impl Supervisor {
    /// A supervisor for the given settings. With settings that cannot be used
    /// it is unconfigured and attempts nothing.
    pub fn new(settings: Settings) -> (supervisor: Self)
        ensures
            supervisor@ == started(settings@),
    {
        let state = match settings.check() {
            Ok(()) => LinkState::Disconnected,
            Err(_) => LinkState::Unconfigured,
        };
        Supervisor { settings, state }
    }

    /// Where the supervisor stands.
    pub fn state(&self) -> (state: LinkState)
        ensures
            state == self@.state,
    {
        self.state
    }

    /// Which events the supervisor waits for.
    pub fn awaits(&self) -> (wanted: Awaited)
        ensures
            wanted == awaited(self@.state),
    {
        Awaited {
            retry_tick: self.state == LinkState::Disconnected,
            refresh_tick: self.state == LinkState::Connected,
            commands: self.state == LinkState::Unconfigured || self.state == LinkState::Connected,
            arrivals: self.state == LinkState::Connected,
        }
    }

    /// The settings that the supervisor works with.
    pub fn settings(&self) -> (settings: &Settings)
        ensures
            settings@ == self@.settings,
    {
        &self.settings
    }

    /// Takes new settings in place of the old ones.
    fn adopt(&mut self, settings: Settings) -> (action: SupervisorAction)
        ensures
            (final(self)@, action@) == adopted(settings@),
    {
        match settings.connect_target() {
            Ok(address) => {
                self.settings = settings;
                self.state = LinkState::Connecting;
                SupervisorAction::Reconnect(address)
            },
            Err(_) => {
                self.settings = settings;
                self.state = LinkState::Unconfigured;
                SupervisorAction::Discard
            },
        }
    }

    /// Takes a command from the application.
    fn command(&mut self, command: Command) -> (action: SupervisorAction)
        ensures
            (final(self)@, action@) == commanded(old(self)@, command@),
    {
        match command {
            Command::Reconnect(settings) => match self.state {
                LinkState::Unconfigured | LinkState::Connected => self.adopt(settings),
                _ => SupervisorAction::Wait,
            },
            Command::ListUsers => match self.state {
                LinkState::Connected => SupervisorAction::Send(request_users()),
                _ => SupervisorAction::Wait,
            },
            Command::SendPrompt(receiver, text) => match self.state {
                LinkState::Connected => SupervisorAction::Send(
                    prompt(self.settings.username.as_str(), receiver.as_str(), text),
                ),
                _ => SupervisorAction::Wait,
            },
        }
    }

    /// Takes one event and tells what to do next.
    pub fn step(&mut self, event: SupervisorEvent) -> (action: SupervisorAction)
        ensures
            (final(self)@, action@) == advanced(old(self)@, event@),
    {
        match self.state {
            LinkState::Stopped => {
                return SupervisorAction::Wait;
            },
            _ => {},
        }
        match event {
            SupervisorEvent::Interrupted => {
                let action = match self.state {
                    LinkState::Connected => SupervisorAction::Close,
                    _ => SupervisorAction::Exit,
                };
                self.state = LinkState::Stopped;
                action
            },
            SupervisorEvent::Command(command) => self.command(command),
            SupervisorEvent::RetryTick => match self.state {
                LinkState::Disconnected => match self.settings.connect_target() {
                    Ok(address) => {
                        self.state = LinkState::Connecting;
                        SupervisorAction::Connect(address)
                    },
                    Err(_) => {
                        self.state = LinkState::Unconfigured;
                        SupervisorAction::Wait
                    },
                },
                _ => SupervisorAction::Wait,
            },
            SupervisorEvent::ConnectSucceeded => match self.state {
                LinkState::Connecting => {
                    self.state = LinkState::Connected;
                    SupervisorAction::Wait
                },
                _ => SupervisorAction::Discard,
            },
            SupervisorEvent::ConnectFailed => match self.state {
                LinkState::Connecting => {
                    self.state = LinkState::Disconnected;
                    SupervisorAction::Wait
                },
                _ => SupervisorAction::Wait,
            },
            SupervisorEvent::RefreshTick => match self.state {
                LinkState::Connected => SupervisorAction::Send(request_users()),
                _ => SupervisorAction::Wait,
            },
            SupervisorEvent::Arrived(message) => match self.state {
                LinkState::Connected => match present(message) {
                    Shown::Nothing => SupervisorAction::Wait,
                    display => SupervisorAction::Show(display),
                },
                _ => SupervisorAction::Wait,
            },
            SupervisorEvent::StreamClosed => match self.state {
                LinkState::Connected => {
                    self.state = LinkState::Disconnected;
                    SupervisorAction::Discard
                },
                _ => SupervisorAction::Wait,
            },
        }
    }
}

} // verus!
