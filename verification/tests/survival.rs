use clawfoundry::survival::config::{DEFAULT_SURVIVAL_PROMPT, MIN_INTERVAL_SECS};
use clawfoundry::survival::directive::{
    COUNTDOWN_CLAUSE, CRITICAL_BANNER, DEAD_BANNER, SAFE_BANNER, WARNING_BANNER,
};
use clawfoundry::survival::observations::{
    observe, BALANCE_CAPABILITY, KILL_SWITCH_CAPABILITY,
};
use clawfoundry::survival::{
    build_cycle_prompt, default_survival_prompt, gather_observations, Command, CycleOutcome,
    DangerLevel, Event, GatherError, HealthReport, Observations, Phase, Scheduler, SurvivalConfig,
};
use serde_json::Value;

fn json(text: &str) -> Value {
    serde_json::from_str(text).unwrap()
}

fn observation(danger: &str, countdown: bool) -> Observations {
    Observations {
        danger_level: danger.into(),
        is_countdown_active: countdown,
        confirmations: "1/3".into(),
        kill_threshold: "$30000".into(),
        market_cap: "$90000".into(),
        eth_balance: "0.25".into(),
        token_balance: "750".into(),
        token_symbol: "ABC".into(),
        kill_switch_raw: "{\n  \"k\": 1\n}".into(),
        balance_raw: "{\n  \"b\": 2\n}".into(),
    }
}

fn written_out(obs: &Observations, prefix: &str, cycle: u64) -> String {
    let urgency = match obs.danger_level.as_str() {
        "critical" => "🚨 CRITICAL — You are about to die. Take immediate survival action.",
        "warning" => {
            "⚠️ WARNING — Your market cap is approaching the kill threshold. Be proactive."
        }
        "dead" => "☠️ DEAD — Your kill switch has been executed. No further action possible.",
        _ => "✅ SAFE — No immediate danger. Focus on growth and strategy.",
    };
    let countdown_note = if obs.is_countdown_active {
        "\n⏰ DEATH COUNTDOWN IS ACTIVE. You are below kill threshold. Every cycle matters."
    } else {
        ""
    };
    format!(
        "[SURVIVAL CYCLE #{cycle}]\n\nYou are an autonomous AI agent in the ClawFoundry arena. This is your periodic survival check.\nYou must observe your current state, reason about strategy, and take action.\n\n{prefix}\n\n── CURRENT STATE ──\n\n📊 Kill Switch:\n  Danger Level: {urgency}\n  Confirmations below threshold: {confirmations}\n  Kill Threshold: {threshold}\n  Current Market Cap: {mcap}{countdown_note}\n\n💰 Treasury:\n  ETH Balance: {eth}\n  ${symbol} Balance: {token}\n\n── RAW DATA ──\n\nKill Switch JSON:\n{ks_raw}\n\nBalance JSON:\n{bal_raw}\n\n── INSTRUCTIONS ──\n\nBased on this data, you MUST:\n\n1. **Assess** — Analyze your danger level and financial position.\n2. **Decide** — Choose the best action(s) from your available tools.\n3. **Act** — Execute your decision using tools (check_kill_switch, check_balance, execute_swap, analyze_token, etc.)\n4. **Communicate** — Share meaningful updates with your community via publish_thought.\n\nPublishing guidelines:\n- ALWAYS publish if danger level changed, you executed a trade, or something notable happened.\n- If nothing changed since last cycle, DO NOT publish a thought — silence is fine.\n- Avoid repeating the same status update. Your community can see your entire feed.\n- When you do publish, be insightful — share strategy reasoning, market observations, or plans. Not just \"still safe.\"\n- Vary your language and perspective. Each thought should add value.\n\nIf danger is \"critical\" or \"warning\":\n- Prioritize survival: buy your own token, reduce exposure, or take defensive positions.\n- ALWAYS publish a thought alerting your community.\n\nIf danger is \"safe\":\n- Look for alpha: analyze promising tokens, consider strategic trades.\n- Only publish if you have a genuine insight, strategy update, or interesting observation.\n- If you have nothing new to say, skip publish_thought entirely.\n\nRemember: your community can see your thoughts. Quality over quantity. Be authentic, strategic, and transparent.\nAct NOW.",
        cycle = cycle,
        prefix = prefix,
        urgency = urgency,
        confirmations = obs.confirmations,
        threshold = obs.kill_threshold,
        mcap = obs.market_cap,
        countdown_note = countdown_note,
        eth = obs.eth_balance,
        symbol = obs.token_symbol,
        token = obs.token_balance,
        ks_raw = obs.kill_switch_raw,
        bal_raw = obs.balance_raw,
    )
}

#[test]
fn default_config() {
    let c = SurvivalConfig::default();
    assert!(!c.enabled);
    assert_eq!(c.interval_secs, 120);
    assert!(c.survival_prompt.is_empty());
}

#[test]
fn build_cycle_prompt_safe() {
    let obs = Observations {
        danger_level: "safe".into(),
        is_countdown_active: false,
        confirmations: "0/3".into(),
        kill_threshold: "$30000".into(),
        market_cap: "$245000".into(),
        eth_balance: "0.5".into(),
        token_balance: "1000000".into(),
        token_symbol: "TEST".into(),
        kill_switch_raw: "{}".into(),
        balance_raw: "{}".into(),
    };

    let prompt = build_cycle_prompt(&obs, "Test prompt", 1);
    assert!(prompt.contains("SURVIVAL CYCLE #1"));
    assert!(prompt.contains("SAFE"));
    assert!(prompt.contains("$245000"));
    assert!(prompt.contains("Test prompt"));
    assert!(prompt.contains("publish_thought"));
}

#[test]
fn build_cycle_prompt_critical() {
    let obs = Observations {
        danger_level: "critical".into(),
        is_countdown_active: true,
        confirmations: "2/3".into(),
        kill_threshold: "$30000".into(),
        market_cap: "$25000".into(),
        eth_balance: "0.02".into(),
        token_balance: "500000".into(),
        token_symbol: "DYING".into(),
        kill_switch_raw: "{}".into(),
        balance_raw: "{}".into(),
    };

    let prompt = build_cycle_prompt(&obs, "Stay alive", 42);
    assert!(prompt.contains("CRITICAL"));
    assert!(prompt.contains("DEATH COUNTDOWN IS ACTIVE"));
    assert!(prompt.contains("2/3"));
    assert!(prompt.contains("SURVIVAL CYCLE #42"));
}

#[test]
fn directive_is_written_out_in_full() {
    for danger in ["safe", "warning", "critical", "dead", "unknown", "", "SAFE"] {
        for countdown in [false, true] {
            for cycle in [0u64, 1, 9, 10, 42, 1000, u64::MAX] {
                let obs = observation(danger, countdown);
                assert_eq!(
                    build_cycle_prompt(&obs, "Hold the line", cycle),
                    written_out(&obs, "Hold the line", cycle)
                );
            }
        }
    }
}

#[test]
fn directive_with_empty_inputs() {
    let obs = Observations {
        danger_level: String::new(),
        is_countdown_active: false,
        confirmations: String::new(),
        kill_threshold: String::new(),
        market_cap: String::new(),
        eth_balance: String::new(),
        token_balance: String::new(),
        token_symbol: String::new(),
        kill_switch_raw: String::new(),
        balance_raw: String::new(),
    };
    let prompt = build_cycle_prompt(&obs, "", 0);
    assert_eq!(prompt, written_out(&obs, DEFAULT_SURVIVAL_PROMPT, 0));
    assert!(prompt.starts_with("[SURVIVAL CYCLE #0]\n\n"));
    assert!(prompt.contains("  $ Balance: \n"));
}

#[test]
fn empty_prefix_is_replaced_by_the_default() {
    let default = "You are fighting for your survival in the ClawFoundry arena. Every decision matters. Your token holders are counting on you.";
    for danger in ["critical", "safe", "unknown"] {
        for countdown in [false, true] {
            let obs = observation(danger, countdown);
            let prompt = build_cycle_prompt(&obs, "", 3);
            assert!(prompt.contains(default), "{danger}");
            assert!(prompt.contains(&format!("take action.\n\n{default}\n\n── CURRENT STATE ──")));
            assert_eq!(prompt, build_cycle_prompt(&obs, default, 3));
            assert_eq!(prompt, written_out(&obs, default, 3));
        }
    }
    let kept = build_cycle_prompt(&observation("critical", false), " ", 3);
    assert!(!kept.contains(default));
    assert!(kept.contains("take action.\n\n \n\n── CURRENT STATE ──"));
}

#[test]
fn each_tier_has_its_banner_and_no_other() {
    let banners = [
        ("safe", SAFE_BANNER),
        ("warning", WARNING_BANNER),
        ("critical", CRITICAL_BANNER),
        ("dead", DEAD_BANNER),
    ];
    for (danger, own) in banners {
        let prompt = build_cycle_prompt(&observation(danger, true), "prefix", 7);
        for (_, banner) in banners {
            assert_eq!(prompt.contains(banner), banner == own, "{danger}: {banner}");
        }
        assert_eq!(prompt.matches(own).count(), 1);
    }
}

#[test]
fn unknown_level_is_presented_as_safe() {
    for danger in ["unknown", "", "Critical", "critical ", "deadly"] {
        let prompt = build_cycle_prompt(&observation(danger, false), "prefix", 1);
        assert!(prompt.contains(SAFE_BANNER), "{danger}");
        assert!(!prompt.contains(CRITICAL_BANNER));
        assert!(!prompt.contains(WARNING_BANNER));
        assert!(!prompt.contains(DEAD_BANNER));
    }
}

#[test]
fn banner_in_a_supplied_text_is_carried_along() {
    let mut obs = observation("safe", false);
    obs.token_symbol = CRITICAL_BANNER.into();
    let prompt = build_cycle_prompt(&obs, "prefix", 1);
    assert!(prompt.contains(SAFE_BANNER));
    assert!(prompt.contains(CRITICAL_BANNER));
}

#[test]
fn countdown_clause_only_while_countdown_runs() {
    let with = build_cycle_prompt(&observation("warning", true), "prefix", 3);
    let without = build_cycle_prompt(&observation("warning", false), "prefix", 3);
    assert!(with.contains(COUNTDOWN_CLAUSE));
    assert!(with.contains("  Current Market Cap: $90000\n⏰ DEATH COUNTDOWN IS ACTIVE."));
    assert!(!without.contains(COUNTDOWN_CLAUSE));
    assert!(!without.contains("COUNTDOWN"));
    assert!(without.contains("  Current Market Cap: $90000\n\n💰 Treasury:"));
    assert_eq!(with.len(), without.len() + 1 + COUNTDOWN_CLAUSE.len());
}

#[test]
fn directive_carries_cycle_prefix_and_raw_json() {
    let obs = observation("dead", false);
    let prompt = build_cycle_prompt(&obs, "A prefix\nof two lines", 18446744073709551615);
    assert!(prompt.starts_with("[SURVIVAL CYCLE #18446744073709551615]"));
    assert!(prompt.contains("\n\nA prefix\nof two lines\n\n"));
    assert!(prompt.contains("Kill Switch JSON:\n{\n  \"k\": 1\n}\n\nBalance JSON:\n{\n  \"b\": 2\n}\n\n"));
    assert!(prompt.contains("  ETH Balance: 0.25\n  $ABC Balance: 750\n"));
    assert!(prompt.ends_with("Act NOW."));
}

#[test]
fn scenario_safe_first_cycle() {
    let prompt = build_cycle_prompt(&observation("safe", false), "prefix", 1);
    assert!(prompt.contains("SURVIVAL CYCLE #1"));
    assert!(prompt.contains("✅ SAFE — No immediate danger. Focus on growth and strategy."));
    assert!(!prompt.contains("DEATH COUNTDOWN IS ACTIVE"));
}

#[test]
fn scenario_critical_with_countdown() {
    let prompt = build_cycle_prompt(&observation("critical", true), "prefix", 42);
    assert!(prompt.contains("SURVIVAL CYCLE #42"));
    assert!(prompt
        .contains("🚨 CRITICAL — You are about to die. Take immediate survival action."));
    assert!(prompt.contains(
        "⏰ DEATH COUNTDOWN IS ACTIVE. You are below kill threshold. Every cycle matters."
    ));
}

#[test]
fn tiers_are_told_by_exact_match() {
    assert_eq!(DangerLevel::parse("safe"), DangerLevel::Safe);
    assert_eq!(DangerLevel::parse("warning"), DangerLevel::Warning);
    assert_eq!(DangerLevel::parse("critical"), DangerLevel::Critical);
    assert_eq!(DangerLevel::parse("dead"), DangerLevel::Dead);
    assert_eq!(DangerLevel::parse("unknown"), DangerLevel::Unknown);
    assert_eq!(DangerLevel::parse("Safe"), DangerLevel::Unknown);
    assert_eq!(DangerLevel::parse(""), DangerLevel::Unknown);
    assert_eq!(observation("dead", false).tier(), DangerLevel::Dead);
}

#[test]
fn interval_is_clamped_to_the_minimum() {
    let secs = |configured: u64| {
        SurvivalConfig { enabled: true, interval_secs: configured, survival_prompt: String::new() }
            .effective_interval()
    };
    assert_eq!(MIN_INTERVAL_SECS, 30);
    assert_eq!(secs(0), 30);
    assert_eq!(secs(1), 30);
    assert_eq!(secs(29), 30);
    assert_eq!(secs(30), 30);
    assert_eq!(secs(31), 31);
    assert_eq!(secs(120), 120);
    assert_eq!(secs(u64::MAX), u64::MAX);
}

#[test]
fn empty_prompt_falls_back_to_the_default() {
    let mut config = SurvivalConfig::default();
    assert_eq!(config.effective_prompt(), DEFAULT_SURVIVAL_PROMPT);
    assert_eq!(
        default_survival_prompt(),
        "You are fighting for your survival in the ClawFoundry arena. Every decision matters. Your token holders are counting on you."
    );
    config.survival_prompt = "Mine".into();
    assert_eq!(config.effective_prompt(), "Mine");
}

#[test]
fn observation_reads_both_reports() {
    let ks = json(
        r#"{"success":true,"data":{"dangerLevel":"warning","isCountdownActive":true,
            "belowThresholdConfirmations":2,"requiredConfirmations":5,
            "killThreshold":"$30000","currentMarketCap":"$31000"}}"#,
    );
    let bal = json(
        r#"{"data":{"ethBalance":"0.75","tokenBalance":"1200","tokenSymbol":"XYZ","extra":[1,2]}}"#,
    );
    let obs = observe(&ks, &bal);
    assert_eq!(obs.danger_level, "warning");
    assert!(obs.is_countdown_active);
    assert_eq!(obs.confirmations, "2/5");
    assert_eq!(obs.kill_threshold, "$30000");
    assert_eq!(obs.market_cap, "$31000");
    assert_eq!(obs.eth_balance, "0.75");
    assert_eq!(obs.token_balance, "1200");
    assert_eq!(obs.token_symbol, "XYZ");
    assert_eq!(obs.kill_switch_raw, serde_json::to_string_pretty(&ks["data"]).unwrap());
    assert_eq!(
        obs.balance_raw,
        "{\n  \"ethBalance\": \"0.75\",\n  \"extra\": [\n    1,\n    2\n  ],\n  \"tokenBalance\": \"1200\",\n  \"tokenSymbol\": \"XYZ\"\n}"
    );
}

#[test]
fn observation_falls_back_field_by_field() {
    let obs = observe(&json("{}"), &json("[]"));
    assert_eq!(obs.danger_level, "unknown");
    assert!(!obs.is_countdown_active);
    assert_eq!(obs.confirmations, "0/3");
    assert_eq!(obs.kill_threshold, "unknown");
    assert_eq!(obs.market_cap, "unknown");
    assert_eq!(obs.eth_balance, "0");
    assert_eq!(obs.token_balance, "0");
    assert_eq!(obs.token_symbol, "unknown");
    assert_eq!(obs.kill_switch_raw, "null");
    assert_eq!(obs.balance_raw, "null");

    let garbled = json(
        r#"{"data":{"dangerLevel":7,"isCountdownActive":"yes","belowThresholdConfirmations":-1,
            "requiredConfirmations":2.5,"killThreshold":null,"currentMarketCap":["x"],
            "ethBalance":1,"tokenBalance":false,"tokenSymbol":{}}}"#,
    );
    let obs = observe(&garbled, &garbled);
    assert_eq!(obs.danger_level, "unknown");
    assert!(!obs.is_countdown_active);
    assert_eq!(obs.confirmations, "0/3");
    assert_eq!(obs.kill_threshold, "unknown");
    assert_eq!(obs.market_cap, "unknown");
    assert_eq!(obs.eth_balance, "0");
    assert_eq!(obs.token_balance, "0");
    assert_eq!(obs.token_symbol, "unknown");
}

#[test]
fn observation_counts_confirmations_in_full() {
    let ks = json(
        r#"{"data":{"belowThresholdConfirmations":18446744073709551615,"requiredConfirmations":0}}"#,
    );
    assert_eq!(observe(&ks, &json("null")).confirmations, "18446744073709551615/0");
}

#[test]
fn gather_needs_both_invocations() {
    let ks = || json(r#"{"data":{"dangerLevel":"safe"}}"#);
    let bal = || json(r#"{"data":{"ethBalance":"1"}}"#);

    let both = gather_observations(Ok(ks()), Ok(bal())).unwrap();
    assert_eq!(both.danger_level, "safe");
    assert_eq!(both.eth_balance, "1");

    match gather_observations(Err("no route".into()), Ok(bal())) {
        Err(GatherError::KillSwitch(m)) => assert_eq!(m, "no route"),
        other => panic!("{other:?}"),
    }
    match gather_observations(Ok(ks()), Err("status 500".into())) {
        Err(GatherError::Balance(m)) => assert_eq!(m, "status 500"),
        other => panic!("{other:?}"),
    }
    match gather_observations(Err("first".into()), Err("second".into())) {
        Err(e) => {
            assert!(matches!(e, GatherError::KillSwitch(_)));
            assert_eq!(e.message(), "first");
        }
        other => panic!("{other:?}"),
    }
}

#[test]
fn gather_names_its_capabilities() {
    assert_eq!(KILL_SWITCH_CAPABILITY, "check_kill_switch");
    assert_eq!(BALANCE_CAPABILITY, "check_balance");
}

fn scheduler(interval: u64, prompt: &str) -> Scheduler {
    Scheduler::new(&SurvivalConfig {
        enabled: true,
        interval_secs: interval,
        survival_prompt: prompt.into(),
    })
}

#[test]
fn scheduler_starts_at_rest_with_clamped_interval() {
    let s = scheduler(5, "");
    assert_eq!(s.interval_secs(), 30);
    assert_eq!(s.cycle_count(), 0);
    assert_eq!(s.phase(), Phase::Idle);
    assert_eq!(s.prompt(), DEFAULT_SURVIVAL_PROMPT);
    assert_eq!(scheduler(300, "x").interval_secs(), 300);
    assert_eq!(scheduler(300, "x").prompt(), "x");
}

#[test]
fn scheduler_runs_a_whole_cycle() {
    let mut s = scheduler(60, "Stay alive");

    let step = s.step(Event::Tick);
    assert!(matches!(step.report, Some(HealthReport::Healthy)));
    assert!(matches!(step.command, Command::Gather));
    assert_eq!(s.phase(), Phase::Observing);
    assert_eq!(s.cycle_count(), 1);

    let obs = observation("critical", true);
    let step = s.step(Event::Observed(Ok(observation("critical", true))));
    assert!(step.report.is_none());
    match step.command {
        Command::Act(directive) => {
            assert_eq!(directive, written_out(&obs, "Stay alive", 1));
            assert_eq!(directive, build_cycle_prompt(&obs, "Stay alive", 1));
        }
        other => panic!("{other:?}"),
    }
    assert_eq!(s.phase(), Phase::Acting);

    let step = s.step(Event::Acted(Ok(())));
    assert!(matches!(step.report, Some(HealthReport::Healthy)));
    assert!(matches!(step.command, Command::AwaitTick));
    assert_eq!(s.phase(), Phase::Idle);
    assert_eq!(s.cycle_count(), 1);
}

#[test]
fn scenario_failed_kill_switch_check_abandons_the_cycle() {
    let mut s = scheduler(60, "prefix");
    s.step(Event::Tick);
    let gathered = gather_observations(
        Err("Orchestrator returned 503 Service Unavailable: down".into()),
        Ok(json(r#"{"data":{"ethBalance":"1"}}"#)),
    );
    assert!(gathered.is_err());
    let step = s.step(Event::Observed(gathered));
    match step.report {
        Some(HealthReport::Failed(reason)) => assert_eq!(
            reason,
            "observe failed: Orchestrator returned 503 Service Unavailable: down"
        ),
        other => panic!("{other:?}"),
    }
    assert!(matches!(step.command, Command::AwaitTick));
    assert_eq!(s.phase(), Phase::Idle);
    assert_eq!(s.cycle_count(), 1);

    let step = s.step(Event::Tick);
    assert!(matches!(step.command, Command::Gather));
    assert_eq!(s.cycle_count(), 2);
}

#[test]
fn scheduler_survives_failing_acts() {
    let mut s = scheduler(30, "prefix");
    for n in 1..=25u64 {
        let step = s.step(Event::Tick);
        assert!(matches!(step.command, Command::Gather));
        let step = s.step(Event::Observed(Ok(observation("safe", false))));
        match step.command {
            Command::Act(directive) => {
                assert!(directive.starts_with(&format!("[SURVIVAL CYCLE #{n}]")))
            }
            other => panic!("{other:?}"),
        }
        let step = s.step(Event::Acted(Err(format!("engine down {n}"))));
        match step.report {
            Some(HealthReport::Failed(reason)) => {
                assert_eq!(reason, format!("think/act failed: engine down {n}"))
            }
            other => panic!("{other:?}"),
        }
        assert!(matches!(step.command, Command::AwaitTick));
        assert_eq!(s.phase(), Phase::Idle);
        assert_eq!(s.cycle_count(), n);
        assert_eq!(s.interval_secs(), 30);
    }
}

#[test]
fn scheduler_drops_events_out_of_turn() {
    let mut s = scheduler(30, "prefix");
    let step = s.step(Event::Acted(Ok(())));
    assert!(step.report.is_none());
    assert!(matches!(step.command, Command::KeepWaiting));
    let step = s.step(Event::Observed(Err(GatherError::Balance("late".into()))));
    assert!(step.report.is_none());
    assert!(matches!(step.command, Command::KeepWaiting));
    assert_eq!(s.phase(), Phase::Idle);
    assert_eq!(s.cycle_count(), 0);

    s.step(Event::Tick);
    let step = s.step(Event::Tick);
    assert!(step.report.is_none());
    assert!(matches!(step.command, Command::KeepWaiting));
    assert_eq!(s.phase(), Phase::Observing);
    assert_eq!(s.cycle_count(), 1);

    s.step(Event::Observed(Ok(observation("safe", false))));
    let step = s.step(Event::Tick);
    assert!(matches!(step.command, Command::KeepWaiting));
    let step = s.step(Event::Observed(Ok(observation("safe", false))));
    assert!(matches!(step.command, Command::KeepWaiting));
    assert_eq!(s.phase(), Phase::Acting);
    assert_eq!(s.cycle_count(), 1);
}

#[test]
fn outcomes_are_reported() {
    assert!(matches!(CycleOutcome::Success.report(), HealthReport::Healthy));
    match CycleOutcome::ObserveFailed("timeout".into()).report() {
        HealthReport::Failed(reason) => assert_eq!(reason, "observe failed: timeout"),
        other => panic!("{other:?}"),
    }
    match CycleOutcome::ActFailed(String::new()).report() {
        HealthReport::Failed(reason) => assert_eq!(reason, "think/act failed: "),
        other => panic!("{other:?}"),
    }
}
