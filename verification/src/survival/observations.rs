//! Observations: what one cycle learns of the kill switch and the treasury.

use vstd::prelude::*;
use serde_json::Value;
use crate::json::{pretty_text, shape, text_or, to_pretty, truth_or, unsigned_or, member, JsonShape};
use crate::text::{decimal, push_decimal, same_text};

verus! {

/// The capability that reports the state of the kill switch.
pub const KILL_SWITCH_CAPABILITY: &'static str = "check_kill_switch";

/// The capability that reports the balances of the treasury.
pub const BALANCE_CAPABILITY: &'static str = "check_balance";

/// How close the agent is to being shut down.
#[derive(Debug, Clone, Copy, PartialEq, Eq, Structural)]
pub enum DangerLevel {
    Safe,
    Warning,
    Critical,
    Dead,
    /// Any level that is none of the four tiers.
    Unknown,
}

/// The tier that the reported text `level` names.
pub open spec fn tier_of(level: Seq<char>) -> DangerLevel {
    if level == "critical"@ {
        DangerLevel::Critical
    } else if level == "warning"@ {
        DangerLevel::Warning
    } else if level == "dead"@ {
        DangerLevel::Dead
    } else if level == "safe"@ {
        DangerLevel::Safe
    } else {
        DangerLevel::Unknown
    }
}

impl DangerLevel {
    /// The tier that `level` names: one of the four by exact match, and
    /// `Unknown` for everything else.
    pub fn parse(level: &str) -> (tier: DangerLevel)
        ensures
            tier == tier_of(level@),
    {
        if same_text(level, "critical") {
            DangerLevel::Critical
        } else if same_text(level, "warning") {
            DangerLevel::Warning
        } else if same_text(level, "dead") {
            DangerLevel::Dead
        } else if same_text(level, "safe") {
            DangerLevel::Safe
        } else {
            DangerLevel::Unknown
        }
    }
}

/// The state of the world as one cycle observed it.
#[derive(Debug, Clone)]
pub struct Observations {
    /// The danger level as reported.
    pub danger_level: String,
    /// Whether the death countdown runs.
    pub is_countdown_active: bool,
    /// Confirmations below the threshold, as "n/m".
    pub confirmations: String,
    pub kill_threshold: String,
    pub market_cap: String,
    pub eth_balance: String,
    pub token_balance: String,
    pub token_symbol: String,
    /// The kill switch report as indented JSON.
    pub kill_switch_raw: String,
    /// The balance report as indented JSON.
    pub balance_raw: String,
}

/// An observation as plain values.
pub struct ObservationsView {
    pub danger_level: Seq<char>,
    pub is_countdown_active: bool,
    pub confirmations: Seq<char>,
    pub kill_threshold: Seq<char>,
    pub market_cap: Seq<char>,
    pub eth_balance: Seq<char>,
    pub token_balance: Seq<char>,
    pub token_symbol: Seq<char>,
    pub kill_switch_raw: Seq<char>,
    pub balance_raw: Seq<char>,
}

impl View for Observations {
    type V = ObservationsView;

    open spec fn view(&self) -> ObservationsView {
        ObservationsView {
            danger_level: self.danger_level@,
            is_countdown_active: self.is_countdown_active,
            confirmations: self.confirmations@,
            kill_threshold: self.kill_threshold@,
            market_cap: self.market_cap@,
            eth_balance: self.eth_balance@,
            token_balance: self.token_balance@,
            token_symbol: self.token_symbol@,
            kill_switch_raw: self.kill_switch_raw@,
            balance_raw: self.balance_raw@,
        }
    }
}

impl Observations {
    /// The tier of the reported danger level.
    pub fn tier(&self) -> (tier: DangerLevel)
        ensures
            tier == tier_of(self.danger_level@),
    {
        DangerLevel::parse(self.danger_level.as_str())
    }
}


/// The observation that two reports with contents `kill_switch` and
/// `balance` give. Every field is read from the member `data` of its report
/// and falls back to a default where the report holds nothing usable.
pub open spec fn observed(kill_switch: JsonShape, balance: JsonShape) -> ObservationsView {
    let ks = kill_switch.member("data"@);
    let bal = balance.member("data"@);
    ObservationsView {
        danger_level: ks.member("dangerLevel"@).text_or("unknown"@),
        is_countdown_active: ks.member("isCountdownActive"@).truth_or(false),
        confirmations: decimal(ks.member("belowThresholdConfirmations"@).unsigned_or(0) as nat)
            + seq!['/'] + decimal(ks.member("requiredConfirmations"@).unsigned_or(3) as nat),
        kill_threshold: ks.member("killThreshold"@).text_or("unknown"@),
        market_cap: ks.member("currentMarketCap"@).text_or("unknown"@),
        eth_balance: bal.member("ethBalance"@).text_or("0"@),
        token_balance: bal.member("tokenBalance"@).text_or("0"@),
        token_symbol: bal.member("tokenSymbol"@).text_or("unknown"@),
        kill_switch_raw: pretty_text(ks),
        balance_raw: pretty_text(bal),
    }
}

/// Reads an observation out of the two reports.
pub fn observe(kill_switch: &Value, balance: &Value) -> (obs: Observations)
    ensures
        obs@ == observed(shape(*kill_switch), shape(*balance)),
{
    let ks = member(kill_switch, "data");
    let bal = member(balance, "data");
    let mut confirmations = String::new();
    push_decimal(&mut confirmations, unsigned_or(ks, "belowThresholdConfirmations", 0));
    confirmations.append("/");
    push_decimal(&mut confirmations, unsigned_or(ks, "requiredConfirmations", 3));
    proof {
        reveal_strlit("/");
        assert("/"@ =~= seq!['/']);
        assert(confirmations@ =~= observed(shape(*kill_switch), shape(*balance)).confirmations);
    }
    Observations {
        danger_level: String::from_str(text_or(ks, "dangerLevel", "unknown")),
        is_countdown_active: truth_or(ks, "isCountdownActive", false),
        confirmations,
        kill_threshold: String::from_str(text_or(ks, "killThreshold", "unknown")),
        market_cap: String::from_str(text_or(ks, "currentMarketCap", "unknown")),
        eth_balance: String::from_str(text_or(bal, "ethBalance", "0")),
        token_balance: String::from_str(text_or(bal, "tokenBalance", "0")),
        token_symbol: String::from_str(text_or(bal, "tokenSymbol", "unknown")),
        kill_switch_raw: to_pretty(ks),
        balance_raw: to_pretty(bal),
    }
}

/// Why a gather produced no observation.
#[derive(Debug, Clone)]
pub enum GatherError {
    /// The kill switch check failed, with the invoker's message.
    KillSwitch(String),
    /// The balance check failed, with the invoker's message.
    Balance(String),
}

/// A gather's failure as plain values.
pub enum GatherErrorView {
    KillSwitch(Seq<char>),
    Balance(Seq<char>),
}

impl GatherErrorView {
    /// The message of the invocation that failed.
    pub open spec fn message(self) -> Seq<char> {
        match self {
            GatherErrorView::KillSwitch(m) => m,
            GatherErrorView::Balance(m) => m,
        }
    }
}

impl View for GatherError {
    type V = GatherErrorView;

    open spec fn view(&self) -> GatherErrorView {
        match self {
            GatherError::KillSwitch(m) => GatherErrorView::KillSwitch(m@),
            GatherError::Balance(m) => GatherErrorView::Balance(m@),
        }
    }
}

impl GatherError {
    /// The message of the invocation that failed.
    pub open spec fn message_text(self) -> Seq<char> {
        self@.message()
    }

    /// The message of the invocation that failed.
    pub fn message(&self) -> (m: &str)
        ensures
            m@ == self.message_text(),
    {
        match self {
            GatherError::KillSwitch(m) => m.as_str(),
            GatherError::Balance(m) => m.as_str(),
        }
    }
}

/// Joins the outcomes of the two invocations of one gather: an observation
/// when both succeeded, and the failure otherwise. When both failed, the
/// failure of the kill switch check is reported.
pub fn gather_observations(
    kill_switch: Result<Value, String>,
    balance: Result<Value, String>,
) -> (gathered: Result<Observations, GatherError>)
    ensures
        gathered is Ok <==> kill_switch is Ok && balance is Ok,
        match (kill_switch, balance) {
            (Ok(ks), Ok(bal)) => gathered is Ok && gathered->Ok_0@ == observed(
                shape(ks),
                shape(bal),
            ),
            (Err(e), _) => gathered is Err && gathered->Err_0@ == GatherErrorView::KillSwitch(e@),
            (Ok(_), Err(e)) => gathered is Err && gathered->Err_0@ == GatherErrorView::Balance(e@),
        },
{
    match kill_switch {
        Err(e) => Err(GatherError::KillSwitch(e)),
        Ok(ks) => match balance {
            Err(e) => Err(GatherError::Balance(e)),
            Ok(bal) => Ok(observe(&ks, &bal)),
        },
    }
}

} // verus!
