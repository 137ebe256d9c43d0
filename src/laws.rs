use vstd::prelude::*;

use crate::membership::MemberStatus;
use crate::message::Incoming;
use crate::relay::{step, Act, Event, Outcome, Phase, RelayError};
use crate::settings::Config;

verus! {

/// What the platform reports back for `a` when every call succeeds and the
/// sender's status in the channel is `status`.
pub open spec fn answer(a: Act, status: MemberStatus) -> Event {
    match a {
        Act::Query { .. } => Event::Membership(status),
        _ => Event::Delivered,
    }
}

/// The actions taken from `phase` on, after `event`, for at most `fuel`
/// steps; the last one is a `Finish` when the fuel sufficed.
pub open spec fn run_from(
    config: Config,
    msg: Incoming,
    status: MemberStatus,
    phase: Phase,
    event: Event,
    fuel: nat,
) -> Seq<Act>
    decreases fuel,
{
    if fuel == 0 {
        Seq::empty()
    } else {
        let (p, a) = step(config, msg, phase, event);
        if a is Finish {
            seq![a]
        } else {
            seq![a] + run_from(config, msg, status, p, answer(a, status), (fuel - 1) as nat)
        }
    }
}

/// Every action taken while handling `msg` from its arrival on, when every
/// call succeeds and the sender's status in the channel is `status`.
pub open spec fn handling(config: Config, msg: Incoming, status: MemberStatus) -> Seq<Act> {
    run_from(config, msg, status, Phase::Received, Event::Begin, 5)
}

/// The same settings with the subscription check turned off.
pub open spec fn ungated(config: Config) -> Config {
    Config { check_subscription: false, ..config }
}

/// Without the subscription check, a message with text is forwarded to the
/// channel and then confirmed to the sender: two sends and no membership
/// query.
pub proof fn lemma_ungated_forward(config: Config, msg: Incoming, status: MemberStatus)
    requires
        !config.check_subscription,
        msg.body() is Some,
    ensures
        handling(config, msg, status) == seq![
            Act::Send { chat_id: config.channel_id, text: msg.body()->0 },
            Act::Send { chat_id: msg.chat_id, text: config.sent_msg@ },
            Act::Finish(Ok(Outcome::Forwarded)),
        ],
{
    reveal_with_fuel(run_from, 5);
    assert(handling(config, msg, status) =~= seq![
        Act::Send { chat_id: config.channel_id, text: msg.body()->0 },
        Act::Send { chat_id: msg.chat_id, text: config.sent_msg@ },
        Act::Finish(Ok(Outcome::Forwarded)),
    ]);
}

/// With the subscription check on and the sender present in the channel,
/// the handling is one membership query followed by exactly what it would
/// be without the check.
pub proof fn lemma_gated_present(config: Config, msg: Incoming, status: MemberStatus)
    requires
        config.check_subscription,
        msg.chat_id >= 0,
        status.present(),
    ensures
        handling(config, msg, status) == seq![
            Act::Query { channel_id: config.channel_id, user_id: msg.chat_id as u64 },
        ] + handling(ungated(config), msg, status),
{
    reveal_with_fuel(run_from, 5);
    assert(handling(config, msg, status) =~= seq![
        Act::Query { channel_id: config.channel_id, user_id: msg.chat_id as u64 },
    ] + handling(ungated(config), msg, status));
}

/// With the subscription check on and the sender not in the channel, the
/// only send is the request to subscribe, after one membership query;
/// nothing reaches the channel.
pub proof fn lemma_gated_absent(config: Config, msg: Incoming, status: MemberStatus)
    requires
        config.check_subscription,
        msg.chat_id >= 0,
        !status.present(),
    ensures
        handling(config, msg, status) == seq![
            Act::Query { channel_id: config.channel_id, user_id: msg.chat_id as u64 },
            Act::Send { chat_id: msg.chat_id, text: config.subscribe_msg@ },
            Act::Finish(Ok(Outcome::NotSubscribed)),
        ],
{
    reveal_with_fuel(run_from, 5);
    assert(handling(config, msg, status) =~= seq![
        Act::Query { channel_id: config.channel_id, user_id: msg.chat_id as u64 },
        Act::Send { chat_id: msg.chat_id, text: config.subscribe_msg@ },
        Act::Finish(Ok(Outcome::NotSubscribed)),
    ]);
}

/// A sender who counts as subscribed but whose message has no text gets
/// nothing: no message is sent and the handling fails with `MissingText`.
pub proof fn lemma_missing_text(config: Config, msg: Incoming, status: MemberStatus)
    requires
        msg.body() is None,
        config.check_subscription ==> msg.chat_id >= 0 && status.present(),
    ensures
        handling(config, msg, status) == (if config.check_subscription {
            seq![Act::Query { channel_id: config.channel_id, user_id: msg.chat_id as u64 }]
        } else {
            Seq::<Act>::empty()
        }) + seq![Act::Finish(Err(RelayError::MissingText))],
{
    reveal_with_fuel(run_from, 5);
    assert(handling(config, msg, status) =~= (if config.check_subscription {
        seq![Act::Query { channel_id: config.channel_id, user_id: msg.chat_id as u64 }]
    } else {
        Seq::<Act>::empty()
    }) + seq![Act::Finish(Err(RelayError::MissingText))]);
}

/// The text of `msg` goes to the channel at position `k` of `t`.
pub open spec fn forwarded_at(t: Seq<Act>, config: Config, msg: Incoming, k: int) -> bool {
    &&& 0 <= k < t.len()
    &&& t[k] == (Act::Send { chat_id: config.channel_id, text: msg.body()->0 })
}

/// Nothing is remembered between two handlings: a message with text from a
/// sender who counts as subscribed, handled twice, reaches the channel twice.
pub proof fn lemma_replay_forwards_twice(config: Config, msg: Incoming, status: MemberStatus)
    requires
        msg.body() is Some,
        config.check_subscription ==> msg.chat_id >= 0 && status.present(),
    ensures
        ({
            let twice = handling(config, msg, status) + handling(config, msg, status);
            exists|a: int, b: int|
                a < b && forwarded_at(twice, config, msg, a) && forwarded_at(twice, config, msg, b)
        }),
{
    let t = handling(config, msg, status);
    let twice = t + t;
    let k: int = if config.check_subscription { 1 } else { 0 };
    if config.check_subscription {
        lemma_gated_present(config, msg, status);
        lemma_ungated_forward(ungated(config), msg, status);
    } else {
        lemma_ungated_forward(config, msg, status);
    }
    assert(forwarded_at(twice, config, msg, k));
    assert(forwarded_at(twice, config, msg, k + t.len()));
}

} // verus!
