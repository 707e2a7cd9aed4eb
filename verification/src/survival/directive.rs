//! The directive: one text built from an observation, the configured prefix
//! and the cycle number.

use vstd::prelude::*;
use crate::survival::config::{prompt_or_default, DEFAULT_SURVIVAL_PROMPT};
use crate::survival::observations::{tier_of, DangerLevel, Observations, ObservationsView};
use crate::text::{decimal, push_decimal};

verus! {

/// Opens the title line; the cycle number follows.
pub const TITLE_OPEN: &'static str =
    "[SURVIVAL CYCLE #";

/// Closes the title line and introduces the agent to its task.
pub const INTRODUCTION: &'static str =
    "]\n\nYou are an autonomous AI agent in the ClawFoundry arena. This is your periodic survival check.\nYou must observe your current state, reason about strategy, and take action.\n\n";

/// Heads the state section, up to the label of the danger level.
pub const STATE_HEADING: &'static str =
    "\n\n── CURRENT STATE ──\n\n📊 Kill Switch:\n  Danger Level: ";

/// Label of the confirmation ratio.
pub const CONFIRMATIONS_LABEL: &'static str =
    "\n  Confirmations below threshold: ";

/// Label of the kill threshold.
pub const THRESHOLD_LABEL: &'static str =
    "\n  Kill Threshold: ";

/// Label of the market capitalisation.
pub const MARKET_CAP_LABEL: &'static str =
    "\n  Current Market Cap: ";

/// Heads the treasury section, up to the label of the ETH balance.
pub const TREASURY_HEADING: &'static str =
    "\n\n💰 Treasury:\n  ETH Balance: ";

/// Opens the label of the token balance; the token symbol follows.
pub const TOKEN_LABEL_OPEN: &'static str =
    "\n  $";

/// Closes the label of the token balance.
pub const TOKEN_LABEL_CLOSE: &'static str =
    " Balance: ";

/// Heads the raw data section, up to the kill switch JSON.
pub const RAW_HEADING: &'static str =
    "\n\n── RAW DATA ──\n\nKill Switch JSON:\n";

/// Label of the balance JSON.
pub const BALANCE_RAW_LABEL: &'static str =
    "\n\nBalance JSON:\n";

/// Heads the instructions and lists the four steps.
pub const STEPS: &'static str =
    "\n\n── INSTRUCTIONS ──\n\nBased on this data, you MUST:\n\n1. **Assess** — Analyze your danger level and financial position.\n2. **Decide** — Choose the best action(s) from your available tools.\n3. **Act** — Execute your decision using tools (check_kill_switch, check_balance, execute_swap, analyze_token, etc.)\n4. **Communicate** — Share meaningful updates with your community via publish_thought.";

/// When to publish a thought.
pub const PUBLISHING: &'static str =
    "\n\nPublishing guidelines:\n- ALWAYS publish if danger level changed, you executed a trade, or something notable happened.\n- If nothing changed since last cycle, DO NOT publish a thought — silence is fine.\n- Avoid repeating the same status update. Your community can see your entire feed.\n- When you do publish, be insightful — share strategy reasoning, market observations, or plans. Not just \"still safe.\"\n- Vary your language and perspective. Each thought should add value.";

/// What to do under a critical or warning danger level.
pub const DEFENSIVE: &'static str =
    "\n\nIf danger is \"critical\" or \"warning\":\n- Prioritize survival: buy your own token, reduce exposure, or take defensive positions.\n- ALWAYS publish a thought alerting your community.";

/// What to do under a safe danger level.
pub const OPPORTUNISTIC: &'static str =
    "\n\nIf danger is \"safe\":\n- Look for alpha: analyze promising tokens, consider strategic trades.\n- Only publish if you have a genuine insight, strategy update, or interesting observation.\n- If you have nothing new to say, skip publish_thought entirely.";

/// The closing reminder.
pub const CLOSING: &'static str =
    "\n\nRemember: your community can see your thoughts. Quality over quantity. Be authentic, strategic, and transparent.\nAct NOW.";

/// Urgency banner of the critical tier.
pub const CRITICAL_BANNER: &'static str =
    "🚨 CRITICAL — You are about to die. Take immediate survival action.";

/// Urgency banner of the warning tier.
pub const WARNING_BANNER: &'static str =
    "⚠️ WARNING — Your market cap is approaching the kill threshold. Be proactive.";

/// Urgency banner of the dead tier.
pub const DEAD_BANNER: &'static str =
    "☠️ DEAD — Your kill switch has been executed. No further action possible.";

/// Urgency banner of the safe tier, and of every level that is none of the four tiers.
pub const SAFE_BANNER: &'static str =
    "✅ SAFE — No immediate danger. Focus on growth and strategy.";

/// Warning that stands on a line of its own after the market capitalisation while the death countdown runs.
pub const COUNTDOWN_CLAUSE: &'static str =
    "⏰ DEATH COUNTDOWN IS ACTIVE. You are below kill threshold. Every cycle matters.";

/// The banner of a tier. An unknown level is presented as safe.
pub open spec fn banner_text(tier: DangerLevel) -> Seq<char> {
    match tier {
        DangerLevel::Critical => CRITICAL_BANNER@,
        DangerLevel::Warning => WARNING_BANNER@,
        DangerLevel::Dead => DEAD_BANNER@,
        DangerLevel::Safe => SAFE_BANNER@,
        DangerLevel::Unknown => SAFE_BANNER@,
    }
}

/// The banner of a tier.
pub fn banner(tier: DangerLevel) -> (b: &'static str)
    ensures
        b@ == banner_text(tier),
{
    match tier {
        DangerLevel::Critical => CRITICAL_BANNER,
        DangerLevel::Warning => WARNING_BANNER,
        DangerLevel::Dead => DEAD_BANNER,
        DangerLevel::Safe => SAFE_BANNER,
        DangerLevel::Unknown => SAFE_BANNER,
    }
}

/// What follows the market capitalisation: the countdown clause on a line of
/// its own while the countdown runs, nothing otherwise.
pub open spec fn countdown_note(active: bool) -> Seq<char> {
    if active {
        seq!['\n'] + COUNTDOWN_CLAUSE@
    } else {
        Seq::<char>::empty()
    }
}

/// The fixed instructions that close every directive.
pub open spec fn instructions() -> Seq<char> {
    STEPS@ + PUBLISHING@ + DEFENSIVE@ + OPPORTUNISTIC@ + CLOSING@
}

/// The directive for observation `obs`, prefix `prefix` and cycle `cycle`.
pub open spec fn cycle_prompt(obs: ObservationsView, prefix: Seq<char>, cycle: nat) -> Seq<char> {
    TITLE_OPEN@ + decimal(cycle) + INTRODUCTION@ + prefix + STATE_HEADING@ + banner_text(
        tier_of(obs.danger_level),
    ) + CONFIRMATIONS_LABEL@ + obs.confirmations + THRESHOLD_LABEL@
        + obs.kill_threshold + MARKET_CAP_LABEL@ + obs.market_cap + countdown_note(
        obs.is_countdown_active,
    ) + TREASURY_HEADING@ + obs.eth_balance + TOKEN_LABEL_OPEN@ + obs.token_symbol
        + TOKEN_LABEL_CLOSE@ + obs.token_balance + RAW_HEADING@ + obs.kill_switch_raw
        + BALANCE_RAW_LABEL@ + obs.balance_raw + instructions()
}

/// Builds the directive of one cycle. The directive carries `survival_prompt`
/// as its prefix, and the default prefix where `survival_prompt` is empty.
pub fn build_cycle_prompt(obs: &Observations, survival_prompt: &str, cycle: u64) -> (prompt: String)
    ensures
        prompt@ == cycle_prompt(obs@, prompt_or_default(survival_prompt@), cycle as nat),
{
    let mut out = String::new();
    out.append(TITLE_OPEN);
    push_decimal(&mut out, cycle);
    out.append(INTRODUCTION);
    if survival_prompt.is_empty() {
        out.append(DEFAULT_SURVIVAL_PROMPT);
    } else {
        out.append(survival_prompt);
    }
    out.append(STATE_HEADING);
    out.append(banner(obs.tier()));
    out.append(CONFIRMATIONS_LABEL);
    out.append(obs.confirmations.as_str());
    out.append(THRESHOLD_LABEL);
    out.append(obs.kill_threshold.as_str());
    out.append(MARKET_CAP_LABEL);
    out.append(obs.market_cap.as_str());
    let ghost before_note = out@;
    if obs.is_countdown_active {
        out.append("\n");
        out.append(COUNTDOWN_CLAUSE);
        proof {
            reveal_strlit("\n");
            assert("\n"@ =~= seq!['\n']);
            assert(out@ =~= before_note + countdown_note(true));
        }
    } else {
        assert(out@ =~= before_note + countdown_note(false));
    }
    out.append(TREASURY_HEADING);
    out.append(obs.eth_balance.as_str());
    out.append(TOKEN_LABEL_OPEN);
    out.append(obs.token_symbol.as_str());
    out.append(TOKEN_LABEL_CLOSE);
    out.append(obs.token_balance.as_str());
    out.append(RAW_HEADING);
    out.append(obs.kill_switch_raw.as_str());
    out.append(BALANCE_RAW_LABEL);
    out.append(obs.balance_raw.as_str());
    let ghost before_instructions = out@;
    out.append(STEPS);
    out.append(PUBLISHING);
    out.append(DEFENSIVE);
    out.append(OPPORTUNISTIC);
    out.append(CLOSING);
    assert(out@ =~= before_instructions + instructions());
    assert(out@ =~= cycle_prompt(obs@, prompt_or_default(survival_prompt@), cycle as nat));
    out
}

} // verus!
