use vstd::prelude::*;

use crate::membership::MemberStatus;
use crate::message::{Incoming, Outgoing};
use crate::settings::Config;

verus! {

/// How far the handling of one freeform message has come.
#[derive(Clone, Copy, Debug, PartialEq, Eq, Structural)]
pub enum Phase {
    /// Nothing done yet.
    Received,
    /// The sender's membership in the channel was asked for.
    AwaitingMembership,
    /// The text is on its way to the channel.
    Forwarding,
    /// The confirmation is on its way to the sender.
    Confirming,
    /// The request to subscribe is on its way to the sender.
    Prompting,
    /// The handling is over.
    Finished,
}

/// What the caller reports back to the relay.
#[derive(Clone, Copy, Debug, PartialEq, Eq, Structural)]
pub enum Event {
    /// The message has just arrived.
    Begin,
    /// The membership query answered.
    Membership(MemberStatus),
    /// The last message was sent.
    Delivered,
    /// The last send or query failed.
    TransportFailed,
}

/// How a handling that did not fail ended.
#[derive(Clone, Copy, Debug, PartialEq, Eq, Structural)]
pub enum Outcome {
    /// The text reached the channel and the sender was told.
    Forwarded,
    /// The sender was asked to subscribe first.
    NotSubscribed,
}

/// Why a handling was given up.
#[derive(Clone, Copy, Debug, PartialEq, Eq, Structural)]
pub enum RelayError {
    /// The message has no text that could be forwarded.
    MissingText,
    /// The chat identifier is no valid user identifier.
    IdentifierConversion,
    /// A send or a query failed.
    Transport,
}

/// What the caller must do next.
pub enum Action {
    /// Send a message.
    Send(Outgoing),
    /// Ask whether `user_id` is a member of `channel_id`.
    QueryMembership { channel_id: i64, user_id: u64 },
    /// Stop: the handling is over, with this result.
    Finish(Result<Outcome, RelayError>),
}

/// An action, with its texts as sequences of characters.
pub enum Act {
    Send { chat_id: i64, text: Seq<char> },
    Query { channel_id: i64, user_id: u64 },
    Finish(Result<Outcome, RelayError>),
}

impl View for Action {
    type V = Act;

    open spec fn view(&self) -> Act {
        match self {
            Action::Send(o) => Act::Send { chat_id: o.chat_id, text: o.text@ },
            Action::QueryMembership { channel_id, user_id } => Act::Query {
                channel_id: *channel_id,
                user_id: *user_id,
            },
            Action::Finish(r) => Act::Finish(*r),
        }
    }
}

/// The events that each phase waits for.
pub open spec fn expects(phase: Phase, event: Event) -> bool {
    match phase {
        Phase::Received => event is Begin,
        Phase::AwaitingMembership => event is Membership || event is TransportFailed,
        Phase::Forwarding | Phase::Confirming | Phase::Prompting => event is Delivered
            || event is TransportFailed,
        Phase::Finished => false,
    }
}

/// The sender counts as subscribed: forward the text, or give up if there
/// is none.
pub open spec fn forward_step(config: Config, msg: Incoming) -> (Phase, Act) {
    match msg.body() {
        Some(t) => (Phase::Forwarding, Act::Send { chat_id: config.channel_id, text: t }),
        None => (Phase::Finished, Act::Finish(Err(RelayError::MissingText))),
    }
}

/// One transition: from a phase and the event that ended it, the next phase
/// and the next action.
pub open spec fn step(config: Config, msg: Incoming, phase: Phase, event: Event) -> (Phase, Act)
    recommends
        expects(phase, event),
{
    match (phase, event) {
        (_, Event::TransportFailed) => (Phase::Finished, Act::Finish(Err(RelayError::Transport))),
        (Phase::Received, _) => if !config.check_subscription {
            forward_step(config, msg)
        } else if msg.chat_id < 0 {
            (Phase::Finished, Act::Finish(Err(RelayError::IdentifierConversion)))
        } else {
            (
                Phase::AwaitingMembership,
                Act::Query { channel_id: config.channel_id, user_id: msg.chat_id as u64 },
            )
        },
        (Phase::AwaitingMembership, Event::Membership(status)) => if status.present() {
            forward_step(config, msg)
        } else {
            (Phase::Prompting, Act::Send { chat_id: msg.chat_id, text: config.subscribe_msg@ })
        },
        (Phase::Forwarding, _) => (
            Phase::Confirming,
            Act::Send { chat_id: msg.chat_id, text: config.sent_msg@ },
        ),
        (Phase::Confirming, _) => (Phase::Finished, Act::Finish(Ok(Outcome::Forwarded))),
        (Phase::Prompting, _) => (Phase::Finished, Act::Finish(Ok(Outcome::NotSubscribed))),
        _ => (phase, Act::Finish(Err(RelayError::Transport))),
    }
}

/// Whether `event` is one that `phase` waits for.
pub fn accepts(phase: Phase, event: Event) -> (r: bool)
    ensures
        r == expects(phase, event),
{
    match phase {
        Phase::Received => matches!(event, Event::Begin),
        Phase::AwaitingMembership => matches!(
            event,
            Event::Membership(_) | Event::TransportFailed
        ),
        Phase::Forwarding | Phase::Confirming | Phase::Prompting => matches!(
            event,
            Event::Delivered | Event::TransportFailed
        ),
        Phase::Finished => false,
    }
}

fn forward(config: &Config, msg: &Incoming) -> (r: (Phase, Action))
    ensures
        (r.0, r.1@) == forward_step(*config, *msg),
{
    match &msg.text {
        Some(t) => if t.as_str().is_empty() {
            (Phase::Finished, Action::Finish(Err(RelayError::MissingText)))
        } else {
            (Phase::Forwarding, Action::Send(Outgoing { chat_id: config.channel_id, text: t.clone() }))
        },
        None => (Phase::Finished, Action::Finish(Err(RelayError::MissingText))),
    }
}

/// Carries the handling of `msg` one step on: `phase` is where it stood and
/// `event` what the last action produced (`Begin` at first).
pub fn next(config: &Config, msg: &Incoming, phase: Phase, event: Event) -> (r: (Phase, Action))
    requires
        expects(phase, event),
    ensures
        (r.0, r.1@) == step(*config, *msg, phase, event),
{
    match (phase, event) {
        (_, Event::TransportFailed) => (Phase::Finished, Action::Finish(Err(RelayError::Transport))),
        (Phase::Received, _) => if !config.check_subscription {
            forward(config, msg)
        } else if msg.chat_id < 0 {
            (Phase::Finished, Action::Finish(Err(RelayError::IdentifierConversion)))
        } else {
            (
                Phase::AwaitingMembership,
                Action::QueryMembership { channel_id: config.channel_id, user_id: msg.chat_id as u64 },
            )
        },
        (Phase::AwaitingMembership, Event::Membership(status)) => if status.is_present() {
            forward(config, msg)
        } else {
            (Phase::Prompting, Action::Send(Outgoing { chat_id: msg.chat_id, text: config.subscribe_msg.clone() }))
        },
        (Phase::Forwarding, _) => (
            Phase::Confirming,
            Action::Send(Outgoing { chat_id: msg.chat_id, text: config.sent_msg.clone() }),
        ),
        (Phase::Confirming, _) => (Phase::Finished, Action::Finish(Ok(Outcome::Forwarded))),
        (Phase::Prompting, _) => (Phase::Finished, Action::Finish(Ok(Outcome::NotSubscribed))),
        _ => (phase, Action::Finish(Err(RelayError::Transport))),
    }
}

} // verus!
