//! What an observer is told: events of the agent's life cycle, and metrics.

use vstd::prelude::*;
use std::time::Duration;

verus! {

/// The whole milliseconds of a duration.
pub uninterp spec fn millis_of(d: Duration) -> u128;

/// `Duration::as_millis`: the whole milliseconds that the duration holds.
#[verifier::external_body]
pub(crate) fn whole_millis(d: &Duration) -> (ms: u128)
    ensures
        ms == millis_of(*d),
{
    d.as_millis()
}

/// The milliseconds of a duration as they are shown: the whole milliseconds,
/// or the largest `u64` where they do not fit.
pub open spec fn shown_millis(d: Duration) -> u64 {
    if millis_of(d) > u64::MAX {
        u64::MAX
    } else {
        millis_of(d) as u64
    }
}

/// The milliseconds of a duration as they are shown.
pub fn shown_millis_of(d: &Duration) -> (ms: u64)
    ensures
        ms == shown_millis(*d),
{
    let ms = whole_millis(d);
    if ms > u64::MAX as u128 {
        u64::MAX
    } else {
        ms as u64
    }
}

/// An event in the life of the agent.
#[derive(Debug)]
pub enum ObserverEvent {
    AgentStart { provider: String, model: String },
    LlmRequest { provider: String, model: String, messages_count: usize },
    LlmResponse {
        provider: String,
        model: String,
        duration: Duration,
        success: bool,
        error_message: Option<String>,
    },
    ToolCallStart { tool: String },
    ToolCall { tool: String, duration: Duration, success: bool },
    TurnComplete,
    HeartbeatTick,
    Error { component: String, message: String },
    ChannelMessage { channel: String, direction: String },
    AgentEnd { duration: Duration, tokens_used: Option<u64> },
}

/// A measurement taken of the agent.
#[derive(Debug)]
pub enum ObserverMetric {
    RequestLatency(Duration),
    TokensUsed(u64),
    ActiveSessions(u64),
    QueueDepth(u64),
}

} // verus!
