//! An observer that turns the agent's life cycle into thought lines.
//!
//! A thought line reads `[THOUGHT] mood=<mood> action=<action> | <summary>`.
//! The observer keeps a mood, which events change, and hands back the line
//! for each event; printing it is the caller's part.

use vstd::prelude::*;
use crate::observability::events::{shown_millis, shown_millis_of, ObserverEvent, ObserverMetric};
use crate::text::{decimal, push_decimal, same_text};

verus! {

/// The name of this observer.
pub const NAME: &'static str = "clawfoundry";

/// The mood and the action that the start of a call of `tool` stands for.
pub open spec fn tool_mood(tool: Seq<char>) -> (Seq<char>, Seq<char>) {
    if tool == "check_balance"@ || tool == "check_kill_switch"@ {
        ("cautious"@, "monitor"@)
    } else if tool == "execute_swap"@ {
        ("focused"@, "swap"@)
    } else if tool == "analyze_token"@ {
        ("curious"@, "research"@)
    } else if tool == "memory_store"@ || tool == "memory_recall"@ || tool == "memory_forget"@ {
        ("reflective"@, "remember"@)
    } else if tool == "browser"@ || tool == "browser_open"@ || tool == "http_request"@ {
        ("curious"@, "research"@)
    } else if tool == "schedule"@ {
        ("planning"@, "schedule"@)
    } else if tool == "request_tool"@ {
        ("hopeful"@, "request"@)
    } else if tool == "platform_feedback"@ {
        ("communicative"@, "feedback"@)
    } else if tool == "shell"@ {
        ("focused"@, "execute"@)
    } else {
        ("focused"@, "tool"@)
    }
}

/// The mood after `event`, for an observer whose mood was `mood`.
pub open spec fn mood_after(mood: Seq<char>, event: ObserverEvent) -> Seq<char> {
    match event {
        ObserverEvent::AgentStart { .. } => "neutral"@,
        ObserverEvent::LlmRequest { .. } => "thinking"@,
        ObserverEvent::LlmResponse { success, .. } => if success {
            mood
        } else {
            "anxious"@
        },
        ObserverEvent::ToolCallStart { tool } => tool_mood(tool@).0,
        ObserverEvent::ToolCall { success, .. } => if success {
            mood
        } else {
            "anxious"@
        },
        ObserverEvent::TurnComplete => "neutral"@,
        ObserverEvent::HeartbeatTick => mood,
        ObserverEvent::Error { .. } => "anxious"@,
        ObserverEvent::ChannelMessage { .. } => mood,
        ObserverEvent::AgentEnd { .. } => "neutral"@,
    }
}

/// The action that the thought line of `event` names.
pub open spec fn action_of(event: ObserverEvent) -> Seq<char> {
    match event {
        ObserverEvent::AgentStart { .. } => "boot"@,
        ObserverEvent::LlmRequest { .. } => "think"@,
        ObserverEvent::LlmResponse { success, .. } => if success {
            "think"@
        } else {
            "error"@
        },
        ObserverEvent::ToolCallStart { tool } => tool_mood(tool@).1,
        ObserverEvent::ToolCall { success, .. } => if success {
            "tool"@
        } else {
            "error"@
        },
        ObserverEvent::TurnComplete => "idle"@,
        ObserverEvent::HeartbeatTick => "idle"@,
        ObserverEvent::Error { .. } => "error"@,
        ObserverEvent::ChannelMessage { .. } => "communicate"@,
        ObserverEvent::AgentEnd { .. } => "shutdown"@,
    }
}

/// The summary that the thought line of `event` gives.
pub open spec fn summary_of(event: ObserverEvent) -> Seq<char> {
    match event {
        ObserverEvent::AgentStart { provider, model } => "Initializing with "@ + provider@
            + "/"@ + model@,
        ObserverEvent::LlmRequest { messages_count, .. } => "Processing ("@ + decimal(
            messages_count as nat,
        ) + " messages in context)"@,
        ObserverEvent::LlmResponse { duration, success, error_message, .. } => if success {
            "Reasoning complete ("@ + decimal(shown_millis(duration) as nat) + "ms)"@
        } else {
            "LLM error after "@ + decimal(shown_millis(duration) as nat) + "ms: "@ + (
            match error_message {
                Some(m) => m@,
                None => "unknown"@,
            })
        },
        ObserverEvent::ToolCallStart { tool } => "Calling "@ + tool@,
        ObserverEvent::ToolCall { tool, duration, success } => if success {
            tool@ + " completed ("@ + decimal(shown_millis(duration) as nat) + "ms)"@
        } else {
            tool@ + " failed ("@ + decimal(shown_millis(duration) as nat) + "ms)"@
        },
        ObserverEvent::TurnComplete => "Turn complete — awaiting next input"@,
        ObserverEvent::HeartbeatTick => "Heartbeat — still alive"@,
        ObserverEvent::Error { component, message } => "["@ + component@ + "] "@ + message@,
        ObserverEvent::ChannelMessage { channel, direction } => direction@ + " via "@
            + channel@,
        ObserverEvent::AgentEnd { duration, .. } => "Agent shutdown after "@ + decimal(
            shown_millis(duration) as nat,
        ) + "ms"@,
    }
}

/// A thought line.
pub open spec fn thought_line(mood: Seq<char>, action: Seq<char>, summary: Seq<char>) -> Seq<
    char,
> {
    "[THOUGHT] mood="@ + mood + " action="@ + action + " | "@ + summary
}

/// The thought line of a metric, where it has one: only the count of tokens
/// used is reported.
pub open spec fn metric_line(mood: Seq<char>, metric: ObserverMetric) -> Option<Seq<char>> {
    match metric {
        ObserverMetric::TokensUsed(tokens) => Some(
            thought_line(mood, "metric"@, "Tokens used: "@ + decimal(tokens as nat)),
        ),
        _ => None,
    }
}

/// The mood and the action for the start of a call of `tool`.
fn mood_for_tool(tool: &str) -> (r: (&'static str, &'static str))
    ensures
        (r.0@, r.1@) == tool_mood(tool@),
{
    if same_text(tool, "check_balance") || same_text(tool, "check_kill_switch") {
        ("cautious", "monitor")
    } else if same_text(tool, "execute_swap") {
        ("focused", "swap")
    } else if same_text(tool, "analyze_token") {
        ("curious", "research")
    } else if same_text(tool, "memory_store") || same_text(tool, "memory_recall") || same_text(
        tool,
        "memory_forget",
    ) {
        ("reflective", "remember")
    } else if same_text(tool, "browser") || same_text(tool, "browser_open") || same_text(
        tool,
        "http_request",
    ) {
        ("curious", "research")
    } else if same_text(tool, "schedule") {
        ("planning", "schedule")
    } else if same_text(tool, "request_tool") {
        ("hopeful", "request")
    } else if same_text(tool, "platform_feedback") {
        ("communicative", "feedback")
    } else if same_text(tool, "shell") {
        ("focused", "execute")
    } else {
        ("focused", "tool")
    }
}

/// An observer that keeps a mood and words every event as a thought line.
#[derive(Debug)]
pub struct ClawFoundryObserver {
    mood: String,
}

impl View for ClawFoundryObserver {
    type V = Seq<char>;

    /// The mood.
    closed spec fn view(&self) -> Seq<char> {
        self.mood@
    }
}

impl ClawFoundryObserver {
    /// An observer in a neutral mood.
    pub fn new() -> (observer: Self)
        ensures
            observer@ == "neutral"@,
    {
        ClawFoundryObserver { mood: String::from_str("neutral") }
    }

    /// The name of this observer.
    pub fn name(&self) -> (name: &'static str)
        ensures
            name@ == NAME@,
    {
        NAME
    }

    /// The current mood.
    pub fn mood(&self) -> (mood: &str)
        ensures
            mood@ == self@,
    {
        self.mood.as_str()
    }

    /// Changes the mood.
    pub fn set_mood(&mut self, new_mood: &str)
        ensures
            final(self)@ == new_mood@,
    {
        self.mood = String::from_str(new_mood);
    }

    /// The thought line for `action` and `summary` in the current mood.
    pub fn emit(&self, action: &str, summary: &str) -> (line: String)
        ensures
            line@ == thought_line(self@, action@, summary@),
    {
        let mut line = String::from_str("[THOUGHT] mood=");
        line.append(self.mood.as_str());
        line.append(" action=");
        line.append(action);
        line.append(" | ");
        line.append(summary);
        line
    }

    /// Takes an event: changes the mood as the event calls for, and hands
    /// back the thought line of the event in the mood after it.
    pub fn record_event(&mut self, event: &ObserverEvent) -> (line: String)
        ensures
            final(self)@ == mood_after(old(self)@, *event),
            line@ == thought_line(final(self)@, action_of(*event), summary_of(*event)),
    {
        match event {
            ObserverEvent::AgentStart { provider, model } => {
                self.set_mood("neutral");
                let mut summary = String::from_str("Initializing with ");
                summary.append(provider.as_str());
                summary.append("/");
                summary.append(model.as_str());
                self.emit("boot", summary.as_str())
            },
            ObserverEvent::LlmRequest { messages_count, .. } => {
                self.set_mood("thinking");
                let mut summary = String::from_str("Processing (");
                push_decimal(&mut summary, *messages_count as u64);
                summary.append(" messages in context)");
                self.emit("think", summary.as_str())
            },
            ObserverEvent::LlmResponse { duration, success, error_message, .. } => {
                let ms = shown_millis_of(duration);
                if *success {
                    let mut summary = String::from_str("Reasoning complete (");
                    push_decimal(&mut summary, ms);
                    summary.append("ms)");
                    self.emit("think", summary.as_str())
                } else {
                    self.set_mood("anxious");
                    let mut summary = String::from_str("LLM error after ");
                    push_decimal(&mut summary, ms);
                    summary.append("ms: ");
                    match error_message {
                        Some(m) => summary.append(m.as_str()),
                        None => summary.append("unknown"),
                    }
                    self.emit("error", summary.as_str())
                }
            },
            ObserverEvent::ToolCallStart { tool } => {
                let (mood, action) = mood_for_tool(tool.as_str());
                self.set_mood(mood);
                let mut summary = String::from_str("Calling ");
                summary.append(tool.as_str());
                self.emit(action, summary.as_str())
            },
            ObserverEvent::ToolCall { tool, duration, success } => {
                let ms = shown_millis_of(duration);
                let mut summary = String::from_str(tool.as_str());
                if *success {
                    summary.append(" completed (");
                    push_decimal(&mut summary, ms);
                    summary.append("ms)");
                    self.emit("tool", summary.as_str())
                } else {
                    self.set_mood("anxious");
                    summary.append(" failed (");
                    push_decimal(&mut summary, ms);
                    summary.append("ms)");
                    self.emit("error", summary.as_str())
                }
            },
            ObserverEvent::TurnComplete => {
                self.set_mood("neutral");
                self.emit("idle", "Turn complete — awaiting next input")
            },
            ObserverEvent::HeartbeatTick => self.emit("idle", "Heartbeat — still alive"),
            ObserverEvent::Error { component, message } => {
                self.set_mood("anxious");
                let mut summary = String::from_str("[");
                summary.append(component.as_str());
                summary.append("] ");
                summary.append(message.as_str());
                self.emit("error", summary.as_str())
            },
            ObserverEvent::ChannelMessage { channel, direction } => {
                let mut summary = String::from_str(direction.as_str());
                summary.append(" via ");
                summary.append(channel.as_str());
                self.emit("communicate", summary.as_str())
            },
            ObserverEvent::AgentEnd { duration, .. } => {
                let ms = shown_millis_of(duration);
                self.set_mood("neutral");
                let mut summary = String::from_str("Agent shutdown after ");
                push_decimal(&mut summary, ms);
                summary.append("ms");
                self.emit("shutdown", summary.as_str())
            },
        }
    }

    /// Takes a metric: the thought line of the metric, where it has one. The
    /// mood stays as it is.
    pub fn record_metric(&self, metric: &ObserverMetric) -> (line: Option<String>)
        ensures
            match line {
                Some(l) => metric_line(self@, *metric) == Some(l@),
                None => metric_line(self@, *metric) is None,
            },
    {
        match metric {
            ObserverMetric::TokensUsed(tokens) => {
                let mut summary = String::from_str("Tokens used: ");
                push_decimal(&mut summary, *tokens);
                Some(self.emit("metric", summary.as_str()))
            },
            _ => None,
        }
    }
}

} // verus!
