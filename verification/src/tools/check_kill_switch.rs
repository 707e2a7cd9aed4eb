//! The state of the agent's kill switch.

use vstd::prelude::*;
use serde_json::Value;
use crate::json::{
    empty_object, member, push_text_or, push_truth_or, push_unsigned_or, shape, text_or,
    JsonShape,
};
use crate::text::{decimal, same_text, truth_text};
use crate::tools::orchestrator::{
    failure_with, outcome_view, success_with, ClawFoundryConfig, Prepared, PreparedView,
    ToolResult, ToolResultView,
};
use crate::tools::schema::{object_schema, object_shape};

verus! {

/// The name under which the orchestrator knows this tool.
pub const NAME: &'static str = "check_kill_switch";

/// What the tool tells of itself.
pub const DESCRIPTION: &'static str =
    "Check your KillSwitch contract state. Returns whether the death countdown is active, how many confirmations below threshold have occurred, your last known market cap, the kill threshold, and an overall danger level (safe/warning/critical/dead). Use this regularly to monitor your survival status.";

/// The schema of the arguments.
pub open spec fn schema_shape() -> JsonShape {
    object_shape(
        JsonShape::Object(Map::empty()),
        None,
    )
}

/// The body of the request for the arguments `args`.
pub open spec fn request_body(args: JsonShape) -> JsonShape {
    JsonShape::Object(Map::empty())
}

/// What the arguments `args` call for: always the request.
pub open spec fn preparation(args: JsonShape) -> PreparedView {
    PreparedView::Call(request_body(args))
}

/// The label of a danger level: one for each of safe, warning and critical,
/// and that of the dead for every other level.
pub open spec fn status_label_text(danger: Seq<char>) -> Seq<char> {
    if danger == "safe"@ {
        "SAFE ✅"@
    } else if danger == "warning"@ {
        "WARNING ⚠️"@
    } else if danger == "critical"@ {
        "CRITICAL 🚨"@
    } else {
        "DEAD ☠️"@
    }
}

/// The label of a danger level.
pub fn status_label(danger: &str) -> (label: &'static str)
    ensures
        label@ == status_label_text(danger@),
{
    if same_text(danger, "safe") {
        "SAFE ✅"
    } else if same_text(danger, "warning") {
        "WARNING ⚠️"
    } else if same_text(danger, "critical") {
        "CRITICAL 🚨"
    } else {
        "DEAD ☠️"
    }
}

/// How the state of the kill switch in the answer is worded.
pub open spec fn report(response: JsonShape) -> Seq<char> {
    "🎯 Kill Switch Status: "@
        + status_label_text(response.member("data"@).member("dangerLevel"@).text_or("unknown"@))
        + "\nDanger Level: "@
        + response.member("data"@).member("dangerLevel"@).text_or("unknown"@)
        + "\nIs Dead: "@
        + truth_text(response.member("data"@).member("isDead"@).truth_or(false))
        + "\nIs Executable: "@
        + truth_text(response.member("data"@).member("isExecutable"@).truth_or(false))
        + "\nCountdown Active: "@
        + truth_text(response.member("data"@).member("countdownActive"@).truth_or(false))
        + "\nBelow-Threshold Confirmations: "@
        + decimal(response.member("data"@).member("belowThresholdConfirmations"@).unsigned_or(0) as nat)
        + "/"@
        + decimal(response.member("data"@).member("confirmationsNeeded"@).unsigned_or(3) as nat)
        + "\nLast Market Cap: "@
        + response.member("data"@).member("lastMarketCap"@).text_or("0"@)
        + "\nKill Threshold: "@
        + response.member("data"@).member("killThreshold"@).text_or("0"@)
        + "\nLast Price Update: "@
        + decimal(response.member("data"@).member("lastPriceUpdate"@).unsigned_or(0) as nat)
        + " (unix timestamp)"@
}

/// The result of an exchange that ended as `outcome`: the report of the
/// answer, or a failure with the message of the exchange.
pub open spec fn result_of(outcome: Result<JsonShape, Seq<char>>) -> ToolResultView {
    match outcome {
        Ok(response) => success_with(report(response)),
        Err(error) => failure_with(error),
    }
}

/// Checks how close the agent is to being shut down.
pub struct CheckKillSwitchTool {
    config: ClawFoundryConfig,
}

impl CheckKillSwitchTool {
    /// A tool that reaches the orchestrator as `config` says.
    pub fn new(config: ClawFoundryConfig) -> (tool: Self)
        ensures
            tool.config() == config,
    {
        CheckKillSwitchTool { config }
    }

    /// The configuration that this tool was made with.
    pub closed spec fn config(&self) -> ClawFoundryConfig {
        self.config
    }

    /// The configuration that this tool was made with.
    pub fn configuration(&self) -> (config: &ClawFoundryConfig)
        ensures
            *config == self.config(),
    {
        &self.config
    }

    /// The name under which the orchestrator knows this tool.
    pub fn name(&self) -> (name: &'static str)
        ensures
            name@ == NAME@,
    {
        NAME
    }

    /// What the tool tells of itself.
    pub fn description(&self) -> (description: &'static str)
        ensures
            description@ == DESCRIPTION@,
    {
        DESCRIPTION
    }

    /// The schema of the arguments.
    pub fn parameters_schema(&self) -> (schema: Value)
        ensures
            shape(schema) == schema_shape(),
    {
        let mut properties = empty_object();
        object_schema(properties, None)
    }

    /// What the arguments `args` call for.
    pub fn prepare(&self, args: &Value) -> (prepared: Prepared)
        ensures
            prepared@ == preparation(shape(*args)),
    {
        let mut body = empty_object();
        Prepared::Call(body)
    }

    /// The result of an exchange that ended as `outcome`: with the answer of
    /// the orchestrator, or with the message of a failure.
    pub fn respond(&self, outcome: Result<Value, String>) -> (result: ToolResult)
        ensures
            result@ == result_of(outcome_view(outcome)),
    {
        match outcome {
            Ok(response) => {
                let data = member(&response, "data");
                let mut output = String::from_str("🎯 Kill Switch Status: ");
                output.append(status_label(text_or(data, "dangerLevel", "unknown")));
                output.append("\nDanger Level: ");
                push_text_or(&mut output, data, "dangerLevel", "unknown");
                output.append("\nIs Dead: ");
                push_truth_or(&mut output, data, "isDead", false);
                output.append("\nIs Executable: ");
                push_truth_or(&mut output, data, "isExecutable", false);
                output.append("\nCountdown Active: ");
                push_truth_or(&mut output, data, "countdownActive", false);
                output.append("\nBelow-Threshold Confirmations: ");
                push_unsigned_or(&mut output, data, "belowThresholdConfirmations", 0);
                output.append("/");
                push_unsigned_or(&mut output, data, "confirmationsNeeded", 3);
                output.append("\nLast Market Cap: ");
                push_text_or(&mut output, data, "lastMarketCap", "0");
                output.append("\nKill Threshold: ");
                push_text_or(&mut output, data, "killThreshold", "0");
                output.append("\nLast Price Update: ");
                push_unsigned_or(&mut output, data, "lastPriceUpdate", 0);
                output.append(" (unix timestamp)");
                ToolResult::succeeded(output)
            },
            Err(error) => ToolResult::failed(error),
        }
    }
}

} // verus!
