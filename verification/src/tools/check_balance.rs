//! The treasury's balance of a token, or of ETH.

use vstd::prelude::*;
use serde_json::Value;
use crate::json::{
    empty_object, member, push_text_or, set_member, shape, text_at, text_or_null, JsonShape,
};
use crate::tools::orchestrator::{
    failure_with, outcome_view, success_with, ClawFoundryConfig, Prepared, PreparedView,
    ToolResult, ToolResultView,
};
use crate::tools::schema::{object_schema, object_shape, property, property_shape};

verus! {

/// The name under which the orchestrator knows this tool.
pub const NAME: &'static str = "check_balance";

/// What the tool tells of itself.
pub const DESCRIPTION: &'static str =
    "Check the token or ETH balance held by your agent's treasury wallet. Optionally specify a token address to check a specific token; defaults to your own token.";

/// Help text of the argument `tokenAddress`.
pub const TOKEN_ADDRESS_HELP: &'static str =
    "ERC-20 token address to check. Defaults to your own token if omitted.";

/// The schema of the arguments.
pub open spec fn schema_shape() -> JsonShape {
    object_shape(
        JsonShape::Object(Map::empty()).with(
            "tokenAddress"@,
            property_shape("string"@, TOKEN_ADDRESS_HELP@),
        ),
        None,
    )
}

/// The body of the request for the arguments `args`.
pub open spec fn request_body(args: JsonShape) -> JsonShape {
    JsonShape::Object(Map::empty())
        .with(
        "tokenAddress"@,
        match args.member("tokenAddress"@).text() {
            Some(t) => JsonShape::String(t),
            None => JsonShape::Null,
        },
    )
}

/// What the arguments `args` call for: always the request.
pub open spec fn preparation(args: JsonShape) -> PreparedView {
    PreparedView::Call(request_body(args))
}

/// How the balances in the answer are worded.
pub open spec fn report(response: JsonShape) -> Seq<char> {
    "Treasury: "@
        + response.member("data"@).member("treasury"@).text_or("unknown"@)
        + "\nToken: "@
        + response.member("data"@).member("tokenSymbol"@).text_or("???"@)
        + " ("@
        + response.member("data"@).member("tokenAddress"@).text_or(""@)
        + ")\nToken Balance: "@
        + response.member("data"@).member("tokenBalance"@).text_or("0"@)
        + "\nETH Balance: "@
        + response.member("data"@).member("ethBalance"@).text_or("0"@)
}

/// The result of an exchange that ended as `outcome`: the report of the
/// answer, or a failure with the message of the exchange.
pub open spec fn result_of(outcome: Result<JsonShape, Seq<char>>) -> ToolResultView {
    match outcome {
        Ok(response) => success_with(report(response)),
        Err(error) => failure_with(error),
    }
}

/// Checks a balance of the agent's treasury.
pub struct CheckBalanceTool {
    config: ClawFoundryConfig,
}

impl CheckBalanceTool {
    /// A tool that reaches the orchestrator as `config` says.
    pub fn new(config: ClawFoundryConfig) -> (tool: Self)
        ensures
            tool.config() == config,
    {
        CheckBalanceTool { config }
    }

    /// The configuration that this tool was made with.
    pub closed spec fn config(&self) -> ClawFoundryConfig {
        self.config
    }

    /// The configuration that this tool was made with.
    pub fn configuration(&self) -> (config: &ClawFoundryConfig)
        ensures
            *config == self.config(),
    {
        &self.config
    }

    /// The name under which the orchestrator knows this tool.
    pub fn name(&self) -> (name: &'static str)
        ensures
            name@ == NAME@,
    {
        NAME
    }

    /// What the tool tells of itself.
    pub fn description(&self) -> (description: &'static str)
        ensures
            description@ == DESCRIPTION@,
    {
        DESCRIPTION
    }

    /// The schema of the arguments.
    pub fn parameters_schema(&self) -> (schema: Value)
        ensures
            shape(schema) == schema_shape(),
    {
        let mut properties = empty_object();
        set_member(&mut properties, "tokenAddress", property("string", TOKEN_ADDRESS_HELP));
        object_schema(properties, None)
    }

    /// What the arguments `args` call for.
    pub fn prepare(&self, args: &Value) -> (prepared: Prepared)
        ensures
            prepared@ == preparation(shape(*args)),
    {
        let mut body = empty_object();
        set_member(&mut body, "tokenAddress", text_or_null(text_at(args, "tokenAddress")));
        Prepared::Call(body)
    }

    /// The result of an exchange that ended as `outcome`: with the answer of
    /// the orchestrator, or with the message of a failure.
    pub fn respond(&self, outcome: Result<Value, String>) -> (result: ToolResult)
        ensures
            result@ == result_of(outcome_view(outcome)),
    {
        match outcome {
            Ok(response) => {
                let data = member(&response, "data");
                let mut output = String::from_str("Treasury: ");
                push_text_or(&mut output, data, "treasury", "unknown");
                output.append("\nToken: ");
                push_text_or(&mut output, data, "tokenSymbol", "???");
                output.append(" (");
                push_text_or(&mut output, data, "tokenAddress", "");
                output.append(")\nToken Balance: ");
                push_text_or(&mut output, data, "tokenBalance", "0");
                output.append("\nETH Balance: ");
                push_text_or(&mut output, data, "ethBalance", "0");
                ToolResult::succeeded(output)
            },
            Err(error) => ToolResult::failed(error),
        }
    }
}

} // verus!
