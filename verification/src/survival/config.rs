//! Configuration of the survival loop and the defaults applied to it.

use vstd::prelude::*;

verus! {

/// The shortest interval between two cycles, in seconds.
pub const MIN_INTERVAL_SECS: u64 = 30;

/// The interval of a fresh configuration, in seconds.
pub const DEFAULT_INTERVAL_SECS: u64 = 120;

/// The prefix used where the configuration gives none.
pub const DEFAULT_SURVIVAL_PROMPT: &'static str =
    "You are fighting for your survival in the ClawFoundry arena. Every decision matters. Your token holders are counting on you.";

/// Configuration of the survival loop.
#[derive(Debug, Clone)]
pub struct SurvivalConfig {
    /// Whether the survival loop runs at all.
    pub enabled: bool,
    /// Seconds between two cycles, as configured.
    pub interval_secs: u64,
    /// Text placed at the head of every directive; empty for the default.
    pub survival_prompt: String,
}

impl Default for SurvivalConfig {
    fn default() -> (c: Self)
        ensures
            !c.enabled,
            c.interval_secs == DEFAULT_INTERVAL_SECS,
            c.survival_prompt@ == Seq::<char>::empty(),
    {
        SurvivalConfig {
            enabled: false,
            interval_secs: DEFAULT_INTERVAL_SECS,
            survival_prompt: String::new(),
        }
    }
}

/// The interval that the timer is armed with: the configured one, raised to
/// the minimum where it is shorter.
pub open spec fn clamped_interval(configured: u64) -> u64 {
    if configured < MIN_INTERVAL_SECS {
        MIN_INTERVAL_SECS
    } else {
        configured
    }
}

/// The prefix that a directive carries: the configured one, or the default
/// where none is configured.
pub open spec fn prompt_or_default(configured: Seq<char>) -> Seq<char> {
    if configured.len() == 0 {
        DEFAULT_SURVIVAL_PROMPT@
    } else {
        configured
    }
}

impl SurvivalConfig {
    /// The interval in seconds that the timer is armed with.
    pub fn effective_interval(&self) -> (secs: u64)
        ensures
            secs == clamped_interval(self.interval_secs),
            secs >= MIN_INTERVAL_SECS,
            self.interval_secs >= MIN_INTERVAL_SECS ==> secs == self.interval_secs,
    {
        if self.interval_secs < MIN_INTERVAL_SECS {
            MIN_INTERVAL_SECS
        } else {
            self.interval_secs
        }
    }

    /// The prefix that every directive of this configuration carries.
    pub fn effective_prompt(&self) -> (prompt: String)
        ensures
            prompt@ == prompt_or_default(self.survival_prompt@),
    {
        if self.survival_prompt.as_str().is_empty() {
            default_survival_prompt()
        } else {
            self.survival_prompt.clone()
        }
    }
}

/// The default prefix.
pub fn default_survival_prompt() -> (prompt: String)
    ensures
        prompt@ == DEFAULT_SURVIVAL_PROMPT@,
{
    String::from_str(DEFAULT_SURVIVAL_PROMPT)
}

} // verus!
