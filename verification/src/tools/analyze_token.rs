//! What the chain tells of an ERC-20 token.

use vstd::prelude::*;
use serde_json::Value;
use crate::json::{
    array, copy_text, empty_object, member, push_text_or, push_unsigned_or, set_member, shape,
    text_at, JsonShape,
};
use crate::text::{decimal};
use crate::tools::orchestrator::{
    failure_with, outcome_view, success_with, ClawFoundryConfig, Prepared, PreparedView,
    ToolResult, ToolResultView,
};
use crate::tools::schema::{
    no_values, object_schema, object_shape, property, property_shape, push_text,
};

verus! {

/// The name under which the orchestrator knows this tool.
pub const NAME: &'static str = "analyze_token";

/// What the tool tells of itself.
pub const DESCRIPTION: &'static str =
    "Analyze an ERC-20 token — reads on-chain data including symbol, decimals, and total supply. Use this to research tokens before making trading decisions.";

/// Help text of the argument `tokenAddress`.
pub const TOKEN_ADDRESS_HELP: &'static str =
    "The ERC-20 token contract address to analyze.";

/// The schema of the arguments.
pub open spec fn schema_shape() -> JsonShape {
    object_shape(
        JsonShape::Object(Map::empty()).with(
            "tokenAddress"@,
            property_shape("string"@, TOKEN_ADDRESS_HELP@),
        ),
        Some(
            JsonShape::Array(
                Seq::<JsonShape>::empty()
                    .push(JsonShape::String("tokenAddress"@)),
            ),
        ),
    )
}

/// The body of the request for the arguments `args`.
pub open spec fn request_body(args: JsonShape) -> JsonShape {
    JsonShape::Object(Map::empty())
        .with_some("tokenAddress"@, args.text_member("tokenAddress"@))
}

/// What the arguments `args` call for: the request, or a rejection that names
/// the first required argument that is missing.
pub open spec fn preparation(args: JsonShape) -> PreparedView {
    if args.member("tokenAddress"@).text() is None {
        PreparedView::Reject("tokenAddress is required"@)
    } else {
        PreparedView::Call(request_body(args))
    }
}

/// How the analysis in the answer is worded.
pub open spec fn report(response: JsonShape) -> Seq<char> {
    "Token Analysis:\nAddress: "@
        + response.member("data"@).member("tokenAddress"@).text_or("unknown"@)
        + "\nSymbol: "@
        + response.member("data"@).member("symbol"@).text_or("???"@)
        + "\nDecimals: "@
        + decimal(response.member("data"@).member("decimals"@).unsigned_or(0) as nat)
        + "\nTotal Supply: "@
        + response.member("data"@).member("totalSupply"@).text_or("0"@)
}

/// The result of an exchange that ended as `outcome`: the report of the
/// answer, or a failure with the message of the exchange.
pub open spec fn result_of(outcome: Result<JsonShape, Seq<char>>) -> ToolResultView {
    match outcome {
        Ok(response) => success_with(report(response)),
        Err(error) => failure_with(error),
    }
}

/// Reads symbol, decimals and total supply of a token.
pub struct AnalyzeTokenTool {
    config: ClawFoundryConfig,
}

impl AnalyzeTokenTool {
    /// A tool that reaches the orchestrator as `config` says.
    pub fn new(config: ClawFoundryConfig) -> (tool: Self)
        ensures
            tool.config() == config,
    {
        AnalyzeTokenTool { config }
    }

    /// The configuration that this tool was made with.
    pub closed spec fn config(&self) -> ClawFoundryConfig {
        self.config
    }

    /// The configuration that this tool was made with.
    pub fn configuration(&self) -> (config: &ClawFoundryConfig)
        ensures
            *config == self.config(),
    {
        &self.config
    }

    /// The name under which the orchestrator knows this tool.
    pub fn name(&self) -> (name: &'static str)
        ensures
            name@ == NAME@,
    {
        NAME
    }

    /// What the tool tells of itself.
    pub fn description(&self) -> (description: &'static str)
        ensures
            description@ == DESCRIPTION@,
    {
        DESCRIPTION
    }

    /// The schema of the arguments.
    pub fn parameters_schema(&self) -> (schema: Value)
        ensures
            shape(schema) == schema_shape(),
    {
        let mut properties = empty_object();
        set_member(&mut properties, "tokenAddress", property("string", TOKEN_ADDRESS_HELP));
        let mut required = no_values();
        push_text(&mut required, "tokenAddress");
        object_schema(properties, Some(array(required)))
    }

    /// What the arguments `args` call for.
    pub fn prepare(&self, args: &Value) -> (prepared: Prepared)
        ensures
            prepared@ == preparation(shape(*args)),
    {
        if text_at(args, "tokenAddress").is_none() {
            return Prepared::Reject(String::from_str("tokenAddress is required"));
        }
        let mut body = empty_object();
        copy_text(&mut body, args, "tokenAddress");
        Prepared::Call(body)
    }

    /// The result of an exchange that ended as `outcome`: with the answer of
    /// the orchestrator, or with the message of a failure.
    pub fn respond(&self, outcome: Result<Value, String>) -> (result: ToolResult)
        ensures
            result@ == result_of(outcome_view(outcome)),
    {
        match outcome {
            Ok(response) => {
                let data = member(&response, "data");
                let mut output = String::from_str("Token Analysis:\nAddress: ");
                push_text_or(&mut output, data, "tokenAddress", "unknown");
                output.append("\nSymbol: ");
                push_text_or(&mut output, data, "symbol", "???");
                output.append("\nDecimals: ");
                push_unsigned_or(&mut output, data, "decimals", 0);
                output.append("\nTotal Supply: ");
                push_text_or(&mut output, data, "totalSupply", "0");
                ToolResult::succeeded(output)
            },
            Err(error) => ToolResult::failed(error),
        }
    }
}

} // verus!
