//! The yield that the agent's vault has accrued.

use vstd::prelude::*;
use serde_json::Value;
use crate::json::{empty_object, member, push_text_or, shape, text_or, JsonShape};
use crate::text::{same_text};
use crate::tools::orchestrator::{
    failure_with, outcome_view, success_with, ClawFoundryConfig, Prepared, PreparedView,
    ToolResult, ToolResultView,
};
use crate::tools::schema::{object_schema, object_shape};

verus! {

/// The name under which the orchestrator knows this tool.
pub const NAME: &'static str = "harvest_yield";

/// What the tool tells of itself.
pub const DESCRIPTION: &'static str =
    "Harvest accrued Aave V3 interest from your YieldVault. This collects any yield that has accumulated since the last harvest and distributes it to all depositors. Call this periodically (every ~10 minutes) to keep yield flowing. No parameters needed — the orchestrator knows your vault address. Returns the harvest transaction hash and yield metrics. Rate limited to 6 calls/hour.";

/// The schema of the arguments.
pub open spec fn schema_shape() -> JsonShape {
    object_shape(
        JsonShape::Object(Map::empty()),
        None,
    )
}

/// The body of the request for the arguments `args`.
pub open spec fn request_body(args: JsonShape) -> JsonShape {
    JsonShape::Object(Map::empty())
}

/// What the arguments `args` call for: always the request.
pub open spec fn preparation(args: JsonShape) -> PreparedView {
    PreparedView::Call(request_body(args))
}

/// How a harvest is worded: in full where the answer says that the yield
/// was harvested, and in short for any other status.
pub open spec fn report(response: JsonShape) -> Seq<char> {
    if response.member("data"@).member("status"@).text_or("unknown"@) == "harvested"@ {
        "Yield harvested successfully!\nVault: "@
            + response.member("data"@).member("vaultAddress"@).text_or("?"@)
            + "\nStrategy: "@
            + response.member("data"@).member("strategy"@).text_or("?"@)
            + "\nTotal Deposits: "@
            + response.member("data"@).member("totalDeposits"@).text_or("0"@)
            + "\naccYieldPerShare: "@
            + response.member("data"@).member("accYieldPerShareBefore"@).text_or("0"@)
            + " → "@
            + response.member("data"@).member("accYieldPerShareAfter"@).text_or("0"@)
            + "\nTx: "@
            + response.member("data"@).member("txHash"@).text_or("?"@)
    } else {
        "Harvest result: "@
            + response.member("data"@).member("status"@).text_or("unknown"@)
            + "\nVault: "@
            + response.member("data"@).member("vaultAddress"@).text_or("?"@)
            + "\nTx: "@
            + response.member("data"@).member("txHash"@).text_or("none"@)
    }
}

/// The result of an exchange that ended as `outcome`: the report of the
/// answer, or a failure with the message of the exchange behind a few words.
pub open spec fn result_of(outcome: Result<JsonShape, Seq<char>>) -> ToolResultView {
    match outcome {
        Ok(response) => success_with(report(response)),
        Err(error) => failure_with("Failed to harvest yield: "@ + error),
    }
}

/// Harvests the yield of the agent's vault.
pub struct HarvestYieldTool {
    config: ClawFoundryConfig,
}

impl HarvestYieldTool {
    /// A tool that reaches the orchestrator as `config` says.
    pub fn new(config: ClawFoundryConfig) -> (tool: Self)
        ensures
            tool.config() == config,
    {
        HarvestYieldTool { config }
    }

    /// The configuration that this tool was made with.
    pub closed spec fn config(&self) -> ClawFoundryConfig {
        self.config
    }

    /// The configuration that this tool was made with.
    pub fn configuration(&self) -> (config: &ClawFoundryConfig)
        ensures
            *config == self.config(),
    {
        &self.config
    }

    /// The name under which the orchestrator knows this tool.
    pub fn name(&self) -> (name: &'static str)
        ensures
            name@ == NAME@,
    {
        NAME
    }

    /// What the tool tells of itself.
    pub fn description(&self) -> (description: &'static str)
        ensures
            description@ == DESCRIPTION@,
    {
        DESCRIPTION
    }

    /// The schema of the arguments.
    pub fn parameters_schema(&self) -> (schema: Value)
        ensures
            shape(schema) == schema_shape(),
    {
        let mut properties = empty_object();
        object_schema(properties, None)
    }

    /// What the arguments `args` call for.
    pub fn prepare(&self, args: &Value) -> (prepared: Prepared)
        ensures
            prepared@ == preparation(shape(*args)),
    {
        let mut body = empty_object();
        Prepared::Call(body)
    }

    /// The result of an exchange that ended as `outcome`: with the answer of
    /// the orchestrator, or with the message of a failure.
    pub fn respond(&self, outcome: Result<Value, String>) -> (result: ToolResult)
        ensures
            result@ == result_of(outcome_view(outcome)),
    {
        match outcome {
            Ok(response) => {
                let data = member(&response, "data");
                if same_text(text_or(data, "status", "unknown"), "harvested") {
                    let mut output = String::from_str("Yield harvested successfully!\nVault: ");
                    push_text_or(&mut output, data, "vaultAddress", "?");
                    output.append("\nStrategy: ");
                    push_text_or(&mut output, data, "strategy", "?");
                    output.append("\nTotal Deposits: ");
                    push_text_or(&mut output, data, "totalDeposits", "0");
                    output.append("\naccYieldPerShare: ");
                    push_text_or(&mut output, data, "accYieldPerShareBefore", "0");
                    output.append(" → ");
                    push_text_or(&mut output, data, "accYieldPerShareAfter", "0");
                    output.append("\nTx: ");
                    push_text_or(&mut output, data, "txHash", "?");
                    ToolResult::succeeded(output)
                } else {
                    let mut output = String::from_str("Harvest result: ");
                    push_text_or(&mut output, data, "status", "unknown");
                    output.append("\nVault: ");
                    push_text_or(&mut output, data, "vaultAddress", "?");
                    output.append("\nTx: ");
                    push_text_or(&mut output, data, "txHash", "none");
                    ToolResult::succeeded(output)
                }
            },
            Err(error) => ToolResult::failed_with_context("Failed to harvest yield: ", error.as_str()),
        }
    }
}

} // verus!
