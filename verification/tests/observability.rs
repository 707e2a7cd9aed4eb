use clawfoundry::observability::{ClawFoundryObserver, ObserverEvent, ObserverMetric};
use std::time::Duration;

#[test]
fn clawfoundry_name() {
    assert_eq!(ClawFoundryObserver::new().name(), "clawfoundry");
}

#[test]
fn clawfoundry_events_do_not_panic() {
    let mut obs = ClawFoundryObserver::new();
    obs.record_event(&ObserverEvent::AgentStart {
        provider: "openrouter".into(),
        model: "sonnet-4".into(),
    });
    obs.record_event(&ObserverEvent::LlmRequest {
        provider: "openrouter".into(),
        model: "sonnet-4".into(),
        messages_count: 5,
    });
    obs.record_event(&ObserverEvent::LlmResponse {
        provider: "openrouter".into(),
        model: "sonnet-4".into(),
        duration: Duration::from_millis(1200),
        success: true,
        error_message: None,
    });
    obs.record_event(&ObserverEvent::ToolCallStart {
        tool: "check_balance".into(),
    });
    obs.record_event(&ObserverEvent::ToolCall {
        tool: "check_balance".into(),
        duration: Duration::from_millis(50),
        success: true,
    });
    obs.record_event(&ObserverEvent::TurnComplete);
    obs.record_event(&ObserverEvent::HeartbeatTick);
    obs.record_event(&ObserverEvent::Error {
        component: "gateway".into(),
        message: "connection refused".into(),
    });
    obs.record_event(&ObserverEvent::AgentEnd {
        duration: Duration::from_secs(3600),
        tokens_used: Some(15000),
    });
}

#[test]
fn clawfoundry_mood_transitions() {
    let mut obs = ClawFoundryObserver::new();

    // Starts neutral
    assert_eq!(obs.mood(), "neutral");

    // Tool call changes mood
    obs.record_event(&ObserverEvent::ToolCallStart {
        tool: "execute_swap".into(),
    });
    assert_eq!(obs.mood(), "focused");

    // Error changes mood to anxious
    obs.record_event(&ObserverEvent::Error {
        component: "test".into(),
        message: "boom".into(),
    });
    assert_eq!(obs.mood(), "anxious");

    // Turn complete resets to neutral
    obs.record_event(&ObserverEvent::TurnComplete);
    assert_eq!(obs.mood(), "neutral");
}

#[test]
fn thought_lines_are_worded_in_full() {
    let mut obs = ClawFoundryObserver::new();
    assert_eq!(
        obs.record_event(&ObserverEvent::AgentStart {
            provider: "openrouter".into(),
            model: "sonnet".into(),
        }),
        "[THOUGHT] mood=neutral action=boot | Initializing with openrouter/sonnet"
    );
    assert_eq!(
        obs.record_event(&ObserverEvent::LlmRequest {
            provider: "openrouter".into(),
            model: "sonnet".into(),
            messages_count: 5,
        }),
        "[THOUGHT] mood=thinking action=think | Processing (5 messages in context)"
    );
    assert_eq!(
        obs.record_event(&ObserverEvent::LlmResponse {
            provider: "openrouter".into(),
            model: "sonnet".into(),
            duration: Duration::from_millis(1200),
            success: true,
            error_message: None,
        }),
        "[THOUGHT] mood=thinking action=think | Reasoning complete (1200ms)"
    );
    assert_eq!(
        obs.record_event(&ObserverEvent::LlmResponse {
            provider: "openrouter".into(),
            model: "sonnet".into(),
            duration: Duration::from_micros(1999),
            success: false,
            error_message: Some("rate limited".into()),
        }),
        "[THOUGHT] mood=anxious action=error | LLM error after 1ms: rate limited"
    );
    assert_eq!(
        obs.record_event(&ObserverEvent::LlmResponse {
            provider: "openrouter".into(),
            model: "sonnet".into(),
            duration: Duration::from_secs(2),
            success: false,
            error_message: None,
        }),
        "[THOUGHT] mood=anxious action=error | LLM error after 2000ms: unknown"
    );
    assert_eq!(
        obs.record_event(&ObserverEvent::ToolCallStart { tool: "check_balance".into() }),
        "[THOUGHT] mood=cautious action=monitor | Calling check_balance"
    );
    assert_eq!(
        obs.record_event(&ObserverEvent::ToolCall {
            tool: "check_balance".into(),
            duration: Duration::from_millis(50),
            success: true,
        }),
        "[THOUGHT] mood=cautious action=tool | check_balance completed (50ms)"
    );
    assert_eq!(
        obs.record_event(&ObserverEvent::ToolCall {
            tool: "shell".into(),
            duration: Duration::from_millis(0),
            success: false,
        }),
        "[THOUGHT] mood=anxious action=error | shell failed (0ms)"
    );
    assert_eq!(
        obs.record_event(&ObserverEvent::HeartbeatTick),
        "[THOUGHT] mood=anxious action=idle | Heartbeat — still alive"
    );
    assert_eq!(
        obs.record_event(&ObserverEvent::ChannelMessage {
            channel: "telegram".into(),
            direction: "inbound".into(),
        }),
        "[THOUGHT] mood=anxious action=communicate | inbound via telegram"
    );
    assert_eq!(
        obs.record_event(&ObserverEvent::TurnComplete),
        "[THOUGHT] mood=neutral action=idle | Turn complete — awaiting next input"
    );
    assert_eq!(
        obs.record_event(&ObserverEvent::Error {
            component: "gateway".into(),
            message: "connection refused".into(),
        }),
        "[THOUGHT] mood=anxious action=error | [gateway] connection refused"
    );
    assert_eq!(
        obs.record_event(&ObserverEvent::AgentEnd {
            duration: Duration::from_secs(3600),
            tokens_used: Some(15000),
        }),
        "[THOUGHT] mood=neutral action=shutdown | Agent shutdown after 3600000ms"
    );
}

#[test]
fn every_tool_sets_its_mood() {
    let cases = [
        ("check_balance", "cautious", "monitor"),
        ("check_kill_switch", "cautious", "monitor"),
        ("execute_swap", "focused", "swap"),
        ("analyze_token", "curious", "research"),
        ("memory_store", "reflective", "remember"),
        ("memory_recall", "reflective", "remember"),
        ("memory_forget", "reflective", "remember"),
        ("browser", "curious", "research"),
        ("browser_open", "curious", "research"),
        ("http_request", "curious", "research"),
        ("schedule", "planning", "schedule"),
        ("request_tool", "hopeful", "request"),
        ("platform_feedback", "communicative", "feedback"),
        ("shell", "focused", "execute"),
        ("anything_else", "focused", "tool"),
        ("", "focused", "tool"),
    ];
    for (tool, mood, action) in cases {
        let mut obs = ClawFoundryObserver::new();
        let line = obs.record_event(&ObserverEvent::ToolCallStart { tool: tool.into() });
        assert_eq!(obs.mood(), mood);
        assert_eq!(line, format!("[THOUGHT] mood={mood} action={action} | Calling {tool}"));
    }
}

#[test]
fn durations_beyond_the_range_are_capped() {
    let mut obs = ClawFoundryObserver::new();
    let line = obs.record_event(&ObserverEvent::AgentEnd {
        duration: Duration::MAX,
        tokens_used: None,
    });
    assert_eq!(
        line,
        "[THOUGHT] mood=neutral action=shutdown | Agent shutdown after 18446744073709551615ms"
    );
    let line = obs.record_event(&ObserverEvent::AgentEnd {
        duration: Duration::from_millis(u64::MAX - 1),
        tokens_used: None,
    });
    assert!(line.ends_with("after 18446744073709551614ms"));
}

#[test]
fn only_token_counts_are_reported() {
    let mut obs = ClawFoundryObserver::new();
    obs.set_mood("curious");
    assert_eq!(
        obs.record_metric(&ObserverMetric::TokensUsed(1234)).unwrap(),
        "[THOUGHT] mood=curious action=metric | Tokens used: 1234"
    );
    assert!(obs.record_metric(&ObserverMetric::RequestLatency(Duration::from_millis(5))).is_none());
    assert!(obs.record_metric(&ObserverMetric::ActiveSessions(3)).is_none());
    assert!(obs.record_metric(&ObserverMetric::QueueDepth(9)).is_none());
    assert_eq!(obs.mood(), "curious");
    assert_eq!(obs.emit("act", "sum"), "[THOUGHT] mood=curious action=act | sum");
}
