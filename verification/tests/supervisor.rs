use chat_relay::command::Command;
use chat_relay::message::{ChatError, ChatMessage, MessageContent};
use chat_relay::session::Shown;
use chat_relay::settings::Settings;
use chat_relay::supervisor::{
    Awaited, LinkState, Supervisor, SupervisorAction, SupervisorEvent, REFRESH_INTERVAL_SECS,
    RETRY_INTERVAL_SECS,
};

fn settings(username: &str, server: &str) -> Settings {
    Settings::new(username.to_string(), server.to_string())
}

fn configured() -> Supervisor {
    Supervisor::new(settings("alice", "127.0.0.1:3000"))
}

fn connected() -> Supervisor {
    let mut supervisor = configured();
    supervisor.step(SupervisorEvent::RetryTick);
    supervisor.step(SupervisorEvent::ConnectSucceeded);
    assert_eq!(supervisor.state(), LinkState::Connected);
    supervisor
}

fn address() -> String {
    "ws://127.0.0.1:3000/ws/alice".to_string()
}

#[test]
fn the_intervals() {
    assert_eq!(RETRY_INTERVAL_SECS, 5);
    assert_eq!(REFRESH_INTERVAL_SECS, 10);
}

#[test]
fn a_supervisor_starts_disconnected_or_unconfigured() {
    assert_eq!(configured().state(), LinkState::Disconnected);
    assert_eq!(Supervisor::new(settings("", "127.0.0.1:3000")).state(), LinkState::Unconfigured);
    assert_eq!(Supervisor::new(settings("alice", "")).state(), LinkState::Unconfigured);
    assert_eq!(configured().settings(), &settings("alice", "127.0.0.1:3000"));
}

#[test]
fn an_unconfigured_supervisor_never_connects() {
    let mut supervisor = Supervisor::new(settings("", ""));
    for _ in 0..5 {
        assert_eq!(supervisor.step(SupervisorEvent::RetryTick), SupervisorAction::Wait);
        assert_eq!(supervisor.step(SupervisorEvent::RefreshTick), SupervisorAction::Wait);
        assert_eq!(supervisor.state(), LinkState::Unconfigured);
    }
}

#[test]
fn a_retry_tick_starts_one_attempt() {
    let mut supervisor = configured();
    assert_eq!(supervisor.step(SupervisorEvent::RetryTick), SupervisorAction::Connect(address()));
    assert_eq!(supervisor.state(), LinkState::Connecting);
    // while the attempt is under way a tick starts no other
    assert_eq!(supervisor.step(SupervisorEvent::RetryTick), SupervisorAction::Wait);
    assert_eq!(supervisor.state(), LinkState::Connecting);
}

#[test]
fn refused_attempts_are_repeated_until_one_is_accepted() {
    for refused in 0..20usize {
        let mut supervisor = configured();
        let mut attempts = 0;
        let mut ticks = 0;
        for _ in 0..refused {
            ticks += 1;
            if let SupervisorAction::Connect(target) = supervisor.step(SupervisorEvent::RetryTick) {
                assert_eq!(target, address());
                attempts += 1;
            }
            assert_eq!(supervisor.step(SupervisorEvent::ConnectFailed), SupervisorAction::Wait);
            assert_eq!(supervisor.state(), LinkState::Disconnected);
        }
        ticks += 1;
        if let SupervisorAction::Connect(_) = supervisor.step(SupervisorEvent::RetryTick) {
            attempts += 1;
        }
        assert_eq!(supervisor.step(SupervisorEvent::ConnectSucceeded), SupervisorAction::Wait);
        assert_eq!(supervisor.state(), LinkState::Connected);
        assert_eq!(attempts, refused + 1);
        assert_eq!(attempts, ticks);
    }
}

#[test]
fn a_live_session_asks_for_the_users_at_each_refresh() {
    let mut supervisor = connected();
    assert_eq!(
        supervisor.step(SupervisorEvent::RefreshTick),
        SupervisorAction::Send(ChatMessage::new("", "", MessageContent::GetUsersList))
    );
    assert_eq!(supervisor.step(SupervisorEvent::RetryTick), SupervisorAction::Wait);
    assert_eq!(supervisor.state(), LinkState::Connected);
}

#[test]
fn commands_go_through_the_live_session() {
    let mut supervisor = connected();
    assert_eq!(
        supervisor.step(SupervisorEvent::Command(Command::ListUsers)),
        SupervisorAction::Send(ChatMessage::new("", "", MessageContent::GetUsersList))
    );
    assert_eq!(
        supervisor.step(SupervisorEvent::Command(Command::SendPrompt(
            "bob".to_string(),
            "hi".to_string()
        ))),
        SupervisorAction::Send(ChatMessage::new(
            "alice",
            "bob",
            MessageContent::Prompt("hi".to_string())
        ))
    );
    assert_eq!(supervisor.state(), LinkState::Connected);
}

#[test]
fn commands_are_passed_over_without_a_session() {
    let mut supervisor = configured();
    assert_eq!(supervisor.step(SupervisorEvent::Command(Command::ListUsers)), SupervisorAction::Wait);
    assert_eq!(
        supervisor.step(SupervisorEvent::Command(Command::SendPrompt(
            "bob".to_string(),
            "hi".to_string()
        ))),
        SupervisorAction::Wait
    );
    assert_eq!(supervisor.step(SupervisorEvent::RefreshTick), SupervisorAction::Wait);
    assert_eq!(supervisor.state(), LinkState::Disconnected);
}

#[test]
fn arrivals_are_shown() {
    let mut supervisor = connected();
    let users = ChatMessage::new(
        "__SERVER__",
        "alice",
        MessageContent::ListUsers(vec!["alice".to_string(), "bob".to_string()]),
    );
    assert_eq!(
        supervisor.step(SupervisorEvent::Arrived(users)),
        SupervisorAction::Show(Shown::Users(vec!["alice".to_string(), "bob".to_string()]))
    );
    let text = ChatMessage::new("bob", "alice", MessageContent::Prompt("hi".to_string()));
    assert_eq!(
        supervisor.step(SupervisorEvent::Arrived(text)),
        SupervisorAction::Show(Shown::Prompt("hi".to_string()))
    );
    let notice = ChatMessage::new("__SERVER__", "alice", MessageContent::Error(ChatError::UserNotOnline));
    assert_eq!(supervisor.step(SupervisorEvent::Arrived(notice)), SupervisorAction::Wait);
    assert_eq!(supervisor.state(), LinkState::Connected);
}

#[test]
fn the_end_of_the_stream_leads_back_to_the_retries() {
    let mut supervisor = connected();
    assert_eq!(supervisor.step(SupervisorEvent::StreamClosed), SupervisorAction::Discard);
    assert_eq!(supervisor.state(), LinkState::Disconnected);
    assert_eq!(supervisor.step(SupervisorEvent::RetryTick), SupervisorAction::Connect(address()));
    assert_eq!(supervisor.step(SupervisorEvent::ConnectSucceeded), SupervisorAction::Wait);
    assert_eq!(supervisor.state(), LinkState::Connected);
}

#[test]
fn new_settings_are_adopted_at_once() {
    let mut supervisor = connected();
    let action =
        supervisor.step(SupervisorEvent::Command(Command::Reconnect(settings("carol", "10.0.0.1:80"))));
    assert_eq!(action, SupervisorAction::Reconnect("ws://10.0.0.1:80/ws/carol".to_string()));
    assert_eq!(supervisor.state(), LinkState::Connecting);
    assert_eq!(supervisor.settings(), &settings("carol", "10.0.0.1:80"));

    let mut unconfigured = Supervisor::new(settings("", ""));
    let action =
        unconfigured.step(SupervisorEvent::Command(Command::Reconnect(settings("alice", "h:1"))));
    assert_eq!(action, SupervisorAction::Reconnect("ws://h:1/ws/alice".to_string()));
    assert_eq!(unconfigured.state(), LinkState::Connecting);
}

#[test]
fn new_settings_that_cannot_be_used_end_the_session() {
    let mut supervisor = connected();
    let action = supervisor.step(SupervisorEvent::Command(Command::Reconnect(settings("", "h:1"))));
    assert_eq!(action, SupervisorAction::Discard);
    assert_eq!(supervisor.state(), LinkState::Unconfigured);
    assert_eq!(supervisor.step(SupervisorEvent::RetryTick), SupervisorAction::Wait);
}

#[test]
fn new_settings_are_passed_over_where_no_command_is_waited_for() {
    let mut supervisor = configured();
    let action = supervisor.step(SupervisorEvent::Command(Command::Reconnect(settings("carol", "h:1"))));
    assert_eq!(action, SupervisorAction::Wait);
    assert_eq!(supervisor.state(), LinkState::Disconnected);
    supervisor.step(SupervisorEvent::RetryTick);
    let action = supervisor.step(SupervisorEvent::Command(Command::Reconnect(settings("carol", "h:1"))));
    assert_eq!(action, SupervisorAction::Wait);
    assert_eq!(supervisor.state(), LinkState::Connecting);
    assert_eq!(supervisor.settings(), &settings("alice", "127.0.0.1:3000"));
}

#[test]
fn what_is_waited_for_in_each_state() {
    let unconfigured = Supervisor::new(settings("", ""));
    assert_eq!(
        unconfigured.awaits(),
        Awaited { retry_tick: false, refresh_tick: false, commands: true, arrivals: false }
    );
    let mut supervisor = configured();
    assert_eq!(
        supervisor.awaits(),
        Awaited { retry_tick: true, refresh_tick: false, commands: false, arrivals: false }
    );
    supervisor.step(SupervisorEvent::RetryTick);
    assert_eq!(
        supervisor.awaits(),
        Awaited { retry_tick: false, refresh_tick: false, commands: false, arrivals: false }
    );
    supervisor.step(SupervisorEvent::ConnectSucceeded);
    assert_eq!(
        supervisor.awaits(),
        Awaited { retry_tick: false, refresh_tick: true, commands: true, arrivals: true }
    );
    supervisor.step(SupervisorEvent::Interrupted);
    assert_eq!(
        supervisor.awaits(),
        Awaited { retry_tick: false, refresh_tick: false, commands: false, arrivals: false }
    );
}

#[test]
fn an_interrupt_stops_the_supervisor() {
    let mut live = connected();
    assert_eq!(live.step(SupervisorEvent::Interrupted), SupervisorAction::Close);
    assert_eq!(live.state(), LinkState::Stopped);
    assert_eq!(live.step(SupervisorEvent::RetryTick), SupervisorAction::Wait);
    assert_eq!(live.step(SupervisorEvent::Interrupted), SupervisorAction::Wait);
    assert_eq!(live.state(), LinkState::Stopped);

    let mut idle = configured();
    assert_eq!(idle.step(SupervisorEvent::Interrupted), SupervisorAction::Exit);
    assert_eq!(idle.state(), LinkState::Stopped);
}

#[test]
fn results_of_attempts_that_nobody_waits_for() {
    let mut supervisor = configured();
    assert_eq!(supervisor.step(SupervisorEvent::ConnectSucceeded), SupervisorAction::Discard);
    assert_eq!(supervisor.step(SupervisorEvent::ConnectFailed), SupervisorAction::Wait);
    assert_eq!(supervisor.step(SupervisorEvent::StreamClosed), SupervisorAction::Wait);
    assert_eq!(supervisor.state(), LinkState::Disconnected);
}
