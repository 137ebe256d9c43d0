use channel_relay::command::{handle_command, Command};
use channel_relay::membership::MemberStatus;
use channel_relay::message::{Incoming, Outgoing};
use channel_relay::relay::{accepts, next, Action, Event, Outcome, Phase, RelayError};
use channel_relay::settings::Config;

#[derive(Debug, PartialEq)]
enum Call {
    Send(i64, String),
    Query(i64, u64),
}

fn config(check: bool) -> Config {
    Config {
        help_msg: "HELP_MSG".to_string(),
        source_msg: "SOURCE_MSG".to_string(),
        subscribe_msg: "SUBSCRIBE_MSG".to_string(),
        sent_msg: "SENT_MSG".to_string(),
        channel_id: 1001,
        check_subscription: check,
    }
}

fn incoming(chat_id: i64, text: Option<&str>) -> Incoming {
    Incoming { chat_id, text: text.map(|t| t.to_string()) }
}

/// Runs one handling against a platform on which every call succeeds,
/// except the one numbered `fail_at` (counting from zero), if any.
fn drive(
    config: &Config,
    msg: &Incoming,
    status: MemberStatus,
    fail_at: Option<usize>,
) -> (Vec<Call>, Result<Outcome, RelayError>) {
    let mut calls = Vec::new();
    let mut phase = Phase::Received;
    let mut event = Event::Begin;
    loop {
        assert!(accepts(phase, event));
        let (p, action) = next(config, msg, phase, event);
        phase = p;
        let failed = fail_at == Some(calls.len());
        match action {
            Action::Send(Outgoing { chat_id, text }) => {
                calls.push(Call::Send(chat_id, text));
                event = if failed { Event::TransportFailed } else { Event::Delivered };
            }
            Action::QueryMembership { channel_id, user_id } => {
                calls.push(Call::Query(channel_id, user_id));
                event = if failed { Event::TransportFailed } else { Event::Membership(status) };
            }
            Action::Finish(r) => {
                assert_eq!(phase, Phase::Finished);
                return (calls, r);
            }
        }
    }
}

#[test]
fn member_message_reaches_channel() {
    let (calls, r) = drive(&config(true), &incoming(42, Some("hello")), MemberStatus::Member, None);
    assert_eq!(
        calls,
        vec![
            Call::Query(1001, 42),
            Call::Send(1001, "hello".to_string()),
            Call::Send(42, "SENT_MSG".to_string()),
        ]
    );
    assert_eq!(r, Ok(Outcome::Forwarded));
}

#[test]
fn non_member_is_asked_to_subscribe() {
    for status in [MemberStatus::Left, MemberStatus::Banned, MemberStatus::Restricted { is_member: false }] {
        let (calls, r) = drive(&config(true), &incoming(42, Some("hello")), status, None);
        assert_eq!(
            calls,
            vec![Call::Query(1001, 42), Call::Send(42, "SUBSCRIBE_MSG".to_string())]
        );
        assert_eq!(r, Ok(Outcome::NotSubscribed));
    }
}

#[test]
fn commands_answer_once_with_their_text() {
    let c = config(true);
    let cases = [
        (Command::Source, "SOURCE_MSG"),
        (Command::Start, "HELP_MSG"),
        (Command::Help, "HELP_MSG"),
    ];
    for (cmd, text) in cases {
        let o = handle_command(&c, 42, cmd);
        assert_eq!(o.chat_id, 42);
        assert_eq!(o.text, text);
    }
}

#[test]
fn ungated_message_needs_no_query() {
    let (calls, r) = drive(&config(false), &incoming(-7, Some("hi")), MemberStatus::Left, None);
    assert_eq!(
        calls,
        vec![Call::Send(1001, "hi".to_string()), Call::Send(-7, "SENT_MSG".to_string())]
    );
    assert_eq!(r, Ok(Outcome::Forwarded));
}

#[test]
fn privileged_and_restricted_members_are_present() {
    for status in [
        MemberStatus::Owner,
        MemberStatus::Administrator,
        MemberStatus::Member,
        MemberStatus::Restricted { is_member: true },
    ] {
        assert!(status.is_present());
        let (calls, r) = drive(&config(true), &incoming(5, Some("x")), status, None);
        assert_eq!(calls.len(), 3);
        assert_eq!(r, Ok(Outcome::Forwarded));
    }
    assert!(!MemberStatus::Left.is_present());
    assert!(!MemberStatus::Banned.is_present());
    assert!(!MemberStatus::Restricted { is_member: false }.is_present());
}

#[test]
fn message_without_text_is_dropped_silently() {
    let (calls, r) = drive(&config(true), &incoming(42, None), MemberStatus::Member, None);
    assert_eq!(calls, vec![Call::Query(1001, 42)]);
    assert_eq!(r, Err(RelayError::MissingText));
    let (calls, r) = drive(&config(false), &incoming(42, None), MemberStatus::Member, None);
    assert_eq!(calls, vec![]);
    assert_eq!(r, Err(RelayError::MissingText));
}

#[test]
fn empty_text_counts_as_missing() {
    let (calls, r) = drive(&config(false), &incoming(42, Some("")), MemberStatus::Member, None);
    assert_eq!(calls, vec![]);
    assert_eq!(r, Err(RelayError::MissingText));
}

#[test]
fn missing_text_of_non_member_still_prompts() {
    let (calls, r) = drive(&config(true), &incoming(42, None), MemberStatus::Left, None);
    assert_eq!(
        calls,
        vec![Call::Query(1001, 42), Call::Send(42, "SUBSCRIBE_MSG".to_string())]
    );
    assert_eq!(r, Ok(Outcome::NotSubscribed));
}

#[test]
fn negative_chat_id_is_no_user_id() {
    let (calls, r) = drive(&config(true), &incoming(-100, Some("hi")), MemberStatus::Member, None);
    assert_eq!(calls, vec![]);
    assert_eq!(r, Err(RelayError::IdentifierConversion));
}

#[test]
fn largest_chat_id_is_a_user_id() {
    let (calls, _) = drive(&config(true), &incoming(i64::MAX, Some("hi")), MemberStatus::Left, None);
    assert_eq!(calls[0], Call::Query(1001, i64::MAX as u64));
}

#[test]
fn transport_failure_stops_the_handling() {
    for k in 0..3 {
        let (calls, r) = drive(&config(true), &incoming(42, Some("hello")), MemberStatus::Member, Some(k));
        assert_eq!(calls.len(), k + 1);
        assert_eq!(r, Err(RelayError::Transport));
    }
}

#[test]
fn replay_forwards_twice() {
    let c = config(true);
    let m = incoming(42, Some("hello"));
    let (first, _) = drive(&c, &m, MemberStatus::Member, None);
    let (second, _) = drive(&c, &m, MemberStatus::Member, None);
    let forwards = first
        .iter()
        .chain(second.iter())
        .filter(|c| **c == Call::Send(1001, "hello".to_string()))
        .count();
    assert_eq!(forwards, 2);
}

#[test]
fn phases_accept_only_their_events() {
    assert!(accepts(Phase::Received, Event::Begin));
    assert!(!accepts(Phase::Received, Event::Delivered));
    assert!(accepts(Phase::AwaitingMembership, Event::Membership(MemberStatus::Left)));
    assert!(!accepts(Phase::AwaitingMembership, Event::Delivered));
    assert!(accepts(Phase::Forwarding, Event::TransportFailed));
    assert!(!accepts(Phase::Finished, Event::Delivered));
}
