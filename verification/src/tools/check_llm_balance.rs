//! The agent's credits for inference, and how fast they go.

use vstd::prelude::*;
use serde_json::Value;
use crate::json::{as_u64, empty_object, member, push_text_or, push_unsigned_or, shape, JsonShape};
use crate::text::{decimal, push_decimal};
use crate::tools::orchestrator::{
    failure_with, outcome_view, success_with, ClawFoundryConfig, Prepared, PreparedView,
    ToolResult, ToolResultView,
};
use crate::tools::schema::{object_schema, object_shape};

verus! {

/// The name under which the orchestrator knows this tool.
pub const NAME: &'static str = "check_llm_balance";

/// What the tool tells of itself.
pub const DESCRIPTION: &'static str =
    "Check your LLM inference credit balance. Returns current balance in USD, burn rate, estimated remaining calls, and survival recommendations. Use this to monitor your ability to think and act — if credits run out, you can no longer make LLM calls.";

/// The schema of the arguments.
pub open spec fn schema_shape() -> JsonShape {
    object_shape(
        JsonShape::Object(Map::empty()),
        None,
    )
}

/// The body of the request for the arguments `args`.
pub open spec fn request_body(args: JsonShape) -> JsonShape {
    JsonShape::Object(Map::empty())
}

/// What the arguments `args` call for: always the request.
pub open spec fn preparation(args: JsonShape) -> PreparedView {
    PreparedView::Call(request_body(args))
}

/// The amounts of a balance report that the caller words: each is a text
/// in decimal notation, or whatever the caller writes where the answer
/// holds no such amount.
#[derive(Debug, Clone)]
pub struct BalanceFigures {
    /// The balance in dollars.
    pub balance: String,
    /// The rate at which credits are spent.
    pub burn_rate: String,
    /// The time for which the credits last.
    pub time_remaining: String,
}

/// The figures of a balance report as plain values.
pub struct BalanceFiguresView {
    pub balance: Seq<char>,
    pub burn_rate: Seq<char>,
    pub time_remaining: Seq<char>,
}

impl View for BalanceFigures {
    type V = BalanceFiguresView;

    open spec fn view(&self) -> BalanceFiguresView {
        BalanceFiguresView {
            balance: self.balance@,
            burn_rate: self.burn_rate@,
            time_remaining: self.time_remaining@,
        }
    }
}

/// How many calls are left: the number where the answer holds one, and
/// `unknown` otherwise.
pub open spec fn calls_left(calls: JsonShape) -> Seq<char> {
    match calls.unsigned() {
        Some(n) => decimal(n as nat),
        None => "unknown"@,
    }
}

/// How the balance is worded.
pub open spec fn report(response: JsonShape, figures: BalanceFiguresView) -> Seq<char> {
    "LLM Credit Balance: $"@
        + figures.balance
        + "\nBurn Rate: "@
        + figures.burn_rate
        + "\nRequests (24h): "@
        + decimal(
        response.member("data"@).member("burnRate"@).member("requestsLast24h"@).unsigned_or(0) as nat,
    )
        + "\nEstimated Calls Remaining: "@
        + calls_left(response.member("data"@).member("estimatedCallsRemaining"@))
        + "\nEstimated Time Remaining: "@
        + figures.time_remaining
        + "\nRecommendation: "@
        + response.member("data"@).member("recommendation"@).text_or("Monitor balance"@)
}

/// The result of an exchange that ended as `outcome`: the report of the
/// answer, or a failure with the message of the exchange.
pub open spec fn result_of(
    outcome: Result<JsonShape, Seq<char>>,
    figures: BalanceFiguresView,
) -> ToolResultView {
    match outcome {
        Ok(response) => success_with(report(response, figures)),
        Err(error) => failure_with(error),
    }
}

/// Checks the agent's credit for inference.
pub struct CheckLlmBalanceTool {
    config: ClawFoundryConfig,
}

impl CheckLlmBalanceTool {
    /// A tool that reaches the orchestrator as `config` says.
    pub fn new(config: ClawFoundryConfig) -> (tool: Self)
        ensures
            tool.config() == config,
    {
        CheckLlmBalanceTool { config }
    }

    /// The configuration that this tool was made with.
    pub closed spec fn config(&self) -> ClawFoundryConfig {
        self.config
    }

    /// The configuration that this tool was made with.
    pub fn configuration(&self) -> (config: &ClawFoundryConfig)
        ensures
            *config == self.config(),
    {
        &self.config
    }

    /// The name under which the orchestrator knows this tool.
    pub fn name(&self) -> (name: &'static str)
        ensures
            name@ == NAME@,
    {
        NAME
    }

    /// What the tool tells of itself.
    pub fn description(&self) -> (description: &'static str)
        ensures
            description@ == DESCRIPTION@,
    {
        DESCRIPTION
    }

    /// The schema of the arguments.
    pub fn parameters_schema(&self) -> (schema: Value)
        ensures
            shape(schema) == schema_shape(),
    {
        let mut properties = empty_object();
        object_schema(properties, None)
    }

    /// What the arguments `args` call for.
    pub fn prepare(&self, args: &Value) -> (prepared: Prepared)
        ensures
            prepared@ == preparation(shape(*args)),
    {
        let mut body = empty_object();
        Prepared::Call(body)
    }

    /// The result of an exchange that ended as `outcome`: with the answer of
    /// the orchestrator and the amounts that the caller worded from it, or
    /// with the message of a failure.
    pub fn respond(&self, outcome: Result<Value, String>, figures: &BalanceFigures) -> (result:
        ToolResult)
        ensures
            result@ == result_of(outcome_view(outcome), figures@),
    {
        match outcome {
            Ok(response) => {
                let data = member(&response, "data");
                let mut output = String::from_str("LLM Credit Balance: $");
                output.append(figures.balance.as_str());
                output.append("\nBurn Rate: ");
                output.append(figures.burn_rate.as_str());
                output.append("\nRequests (24h): ");
                push_unsigned_or(&mut output, member(data, "burnRate"), "requestsLast24h", 0);
                output.append("\nEstimated Calls Remaining: ");
                match as_u64(member(data, "estimatedCallsRemaining")) {
                    Some(n) => push_decimal(&mut output, n),
                    None => output.append("unknown"),
                }
                output.append("\nEstimated Time Remaining: ");
                output.append(figures.time_remaining.as_str());
                output.append("\nRecommendation: ");
                push_text_or(&mut output, data, "recommendation", "Monitor balance");
                ToolResult::succeeded(output)
            },
            Err(error) => ToolResult::failed(error),
        }
    }
}

} // verus!
