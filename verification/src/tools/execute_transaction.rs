//! A transaction against a contract on the whitelist.

use vstd::prelude::*;
use serde_json::Value;
use crate::json::{
    array, copy_text, empty_object, member, push_text_or, set_member, shape, text_at, text_or,
    truth_or, JsonShape,
};
use crate::tools::orchestrator::{
    failure_with, outcome_view, success_with, ClawFoundryConfig, Prepared, PreparedView,
    ToolResult, ToolResultView,
};
use crate::tools::schema::{
    no_values, object_schema, object_shape, property, property_shape, push_text,
};

verus! {

/// The name under which the orchestrator knows this tool.
pub const NAME: &'static str = "execute_transaction";

/// What the tool tells of itself.
pub const DESCRIPTION: &'static str =
    "Execute an arbitrary on-chain transaction against a whitelisted contract. Allowed targets: your bonding curve (buy/sell), your token (approve/transfer), Uniswap V4 PoolManager, LiquidityManager, and other platform contracts. You must encode the calldata yourself. Use this for any on-chain interaction that doesn't have a dedicated tool (e.g., bonding curve buys, ERC-20 approvals, staking, pool operations). GUARDRAILS: max 0.1 ETH value per call, min 0.01 ETH gas reserve, contract+selector whitelist enforced.";

/// Help text of the argument `to`.
pub const TO_HELP: &'static str =
    "Target contract address. Must be on the whitelist (your bonding curve, your token, PoolManager, LiquidityManager, etc.).";

/// Help text of the argument `data`.
pub const DATA_HELP: &'static str =
    "ABI-encoded calldata (hex string starting with 0x). Omit for plain ETH transfers.";

/// Help text of the argument `value`.
pub const VALUE_HELP: &'static str =
    "ETH value to send with the transaction (e.g., '0.05'). Required for payable functions like bonding curve buy. Max 0.1 ETH.";

/// Help text of the argument `description`.
pub const DESCRIPTION_HELP: &'static str =
    "Human-readable description of what this transaction does (for logging).";

/// The schema of the arguments.
pub open spec fn schema_shape() -> JsonShape {
    object_shape(
        JsonShape::Object(Map::empty()).with(
            "to"@,
            property_shape("string"@, TO_HELP@),
        ).with(
            "data"@,
            property_shape("string"@, DATA_HELP@),
        ).with(
            "value"@,
            property_shape("string"@, VALUE_HELP@),
        ).with(
            "description"@,
            property_shape("string"@, DESCRIPTION_HELP@),
        ),
        Some(
            JsonShape::Array(
                Seq::<JsonShape>::empty()
                    .push(JsonShape::String("to"@)),
            ),
        ),
    )
}

/// The body of the request for the arguments `args`.
pub open spec fn request_body(args: JsonShape) -> JsonShape {
    JsonShape::Object(Map::empty())
        .with_some("to"@, args.text_member("to"@))
        .with_some("data"@, args.text_member("data"@))
        .with_some("value"@, args.text_member("value"@))
        .with_some("description"@, args.text_member("description"@))
}

/// What the arguments `args` call for: the request, or a rejection that names
/// the first required argument that is missing.
pub open spec fn preparation(args: JsonShape) -> PreparedView {
    if args.member("to"@).text() is None {
        PreparedView::Reject("to (target contract address) is required"@)
    } else {
        PreparedView::Call(request_body(args))
    }
}

/// How an executed transaction is worded.
pub open spec fn report(response: JsonShape) -> Seq<char> {
    "Transaction executed!\nTo: "@
        + response.member("data"@).member("to"@).text_or("?"@)
        + "\nValue: "@
        + response.member("data"@).member("value"@).text_or("0"@)
        + " wei\nStatus: "@
        + response.member("data"@).member("status"@).text_or("unknown"@)
        + "\nGas Used: "@
        + response.member("data"@).member("gasUsed"@).text_or("?"@)
        + "\nBlock: "@
        + response.member("data"@).member("blockNumber"@).text_or("?"@)
        + "\nTx: "@
        + response.member("data"@).member("txHash"@).text_or("?"@)
}

/// Why the orchestrator did not execute the transaction.
pub open spec fn refusal(response: JsonShape) -> Seq<char> {
    response.member("error"@).text_or("Transaction failed"@)
}

/// The result of an exchange that ended as `outcome`: the report where the
/// answer tells of success, the orchestrator's refusal where it does not,
/// and a failure with the message of the exchange where there is no answer.
pub open spec fn result_of(outcome: Result<JsonShape, Seq<char>>) -> ToolResultView {
    match outcome {
        Ok(response) => if response.member("success"@).truth_or(false) {
            success_with(report(response))
        } else {
            ToolResultView {
                success: false,
                output: "Transaction not executed: "@ + refusal(response),
                error: Some(refusal(response)),
            }
        },
        Err(error) => failure_with(error),
    }
}

/// Executes a transaction that the agent encoded itself.
pub struct ExecuteTransactionTool {
    config: ClawFoundryConfig,
}

impl ExecuteTransactionTool {
    /// A tool that reaches the orchestrator as `config` says.
    pub fn new(config: ClawFoundryConfig) -> (tool: Self)
        ensures
            tool.config() == config,
    {
        ExecuteTransactionTool { config }
    }

    /// The configuration that this tool was made with.
    pub closed spec fn config(&self) -> ClawFoundryConfig {
        self.config
    }

    /// The configuration that this tool was made with.
    pub fn configuration(&self) -> (config: &ClawFoundryConfig)
        ensures
            *config == self.config(),
    {
        &self.config
    }

    /// The name under which the orchestrator knows this tool.
    pub fn name(&self) -> (name: &'static str)
        ensures
            name@ == NAME@,
    {
        NAME
    }

    /// What the tool tells of itself.
    pub fn description(&self) -> (description: &'static str)
        ensures
            description@ == DESCRIPTION@,
    {
        DESCRIPTION
    }

    /// The schema of the arguments.
    pub fn parameters_schema(&self) -> (schema: Value)
        ensures
            shape(schema) == schema_shape(),
    {
        let mut properties = empty_object();
        set_member(&mut properties, "to", property("string", TO_HELP));
        set_member(&mut properties, "data", property("string", DATA_HELP));
        set_member(&mut properties, "value", property("string", VALUE_HELP));
        set_member(&mut properties, "description", property("string", DESCRIPTION_HELP));
        let mut required = no_values();
        push_text(&mut required, "to");
        object_schema(properties, Some(array(required)))
    }

    /// What the arguments `args` call for.
    pub fn prepare(&self, args: &Value) -> (prepared: Prepared)
        ensures
            prepared@ == preparation(shape(*args)),
    {
        if text_at(args, "to").is_none() {
            return Prepared::Reject(String::from_str("to (target contract address) is required"));
        }
        let mut body = empty_object();
        copy_text(&mut body, args, "to");
        copy_text(&mut body, args, "data");
        copy_text(&mut body, args, "value");
        copy_text(&mut body, args, "description");
        Prepared::Call(body)
    }

    /// The result of an exchange that ended as `outcome`: with the answer of
    /// the orchestrator, or with the message of a failure.
    pub fn respond(&self, outcome: Result<Value, String>) -> (result: ToolResult)
        ensures
            result@ == result_of(outcome_view(outcome)),
    {
        match outcome {
            Ok(response) => {
                if truth_or(&response, "success", false) {
                    let data = member(&response, "data");
                    let mut output = String::from_str("Transaction executed!\nTo: ");
                    push_text_or(&mut output, data, "to", "?");
                    output.append("\nValue: ");
                    push_text_or(&mut output, data, "value", "0");
                    output.append(" wei\nStatus: ");
                    push_text_or(&mut output, data, "status", "unknown");
                    output.append("\nGas Used: ");
                    push_text_or(&mut output, data, "gasUsed", "?");
                    output.append("\nBlock: ");
                    push_text_or(&mut output, data, "blockNumber", "?");
                    output.append("\nTx: ");
                    push_text_or(&mut output, data, "txHash", "?");
                    ToolResult::succeeded(output)
                } else {
                    let error = String::from_str(text_or(&response, "error", "Transaction failed"));
                    let mut output = String::from_str("Transaction not executed: ");
                    output.append(error.as_str());
                    ToolResult { success: false, output, error: Some(error) }
                }
            },
            Err(error) => ToolResult::failed(error),
        }
    }
}

} // verus!
