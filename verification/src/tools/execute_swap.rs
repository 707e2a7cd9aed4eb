//! A swap of one token for another.

use vstd::prelude::*;
use serde_json::Value;
use crate::json::{
    array, as_array, as_str, copy_text, copy_unsigned, empty_object, member, push_text_or,
    set_member, shape, shapes, text_at, text_or, truth_or, JsonShape,
};
use crate::tools::orchestrator::{
    failure_with, outcome_view, success_with, ClawFoundryConfig, Prepared, PreparedView,
    ToolResult, ToolResultView,
};
use crate::tools::schema::{
    no_values, object_schema, object_shape, property, property_shape, push_text,
};

verus! {

/// The name under which the orchestrator knows this tool.
pub const NAME: &'static str = "execute_swap";

/// What the tool tells of itself.
pub const DESCRIPTION: &'static str =
    "Execute a token swap on-chain via the 0x aggregator. Routes across all Base DEXes (Uniswap V2/V3/V4, Aerodrome, Curve, etc.) for best execution. Specify the sell token, buy token, amount, and optional max slippage. The orchestrator enforces guardrails (max 5% slippage, 20% position limits, gas reserve). This is a real financial action — use with caution.";

/// Help text of the argument `sellToken`.
pub const SELL_TOKEN_HELP: &'static str =
    "Address of the token to sell (use 0xEeeeeEeeeEeEeeEeEeEeeEEEeeeeEeeeeeeeEEeE for native ETH).";

/// Help text of the argument `buyToken`.
pub const BUY_TOKEN_HELP: &'static str =
    "Address of the token to buy (use 0xEeeeeEeeeEeEeeEeEeEeeEEEeeeeEeeeeeeeEEeE for native ETH).";

/// Help text of the argument `sellAmount`.
pub const SELL_AMOUNT_HELP: &'static str =
    "Amount of sellToken to swap (in human-readable format, e.g. '0.1').";

/// Help text of the argument `maxSlippageBps`.
pub const MAX_SLIPPAGE_BPS_HELP: &'static str =
    "Maximum allowed slippage in basis points (100 = 1%). Default: 100. Max: 500.";

/// The schema of the arguments.
pub open spec fn schema_shape() -> JsonShape {
    object_shape(
        JsonShape::Object(Map::empty()).with(
            "sellToken"@,
            property_shape("string"@, SELL_TOKEN_HELP@),
        ).with(
            "buyToken"@,
            property_shape("string"@, BUY_TOKEN_HELP@),
        ).with(
            "sellAmount"@,
            property_shape("string"@, SELL_AMOUNT_HELP@),
        ).with(
            "maxSlippageBps"@,
            property_shape("number"@, MAX_SLIPPAGE_BPS_HELP@),
        ),
        Some(
            JsonShape::Array(
                Seq::<JsonShape>::empty()
                    .push(JsonShape::String("sellToken"@))
                    .push(JsonShape::String("buyToken"@))
                    .push(JsonShape::String("sellAmount"@)),
            ),
        ),
    )
}

/// The body of the request for the arguments `args`.
pub open spec fn request_body(args: JsonShape) -> JsonShape {
    JsonShape::Object(Map::empty())
        .with_some("sellToken"@, args.text_member("sellToken"@))
        .with_some("buyToken"@, args.text_member("buyToken"@))
        .with_some("sellAmount"@, args.text_member("sellAmount"@))
        .with_some("maxSlippageBps"@, args.unsigned_member("maxSlippageBps"@))
}

/// What the arguments `args` call for: the request, or a rejection that names
/// the first required argument that is missing.
pub open spec fn preparation(args: JsonShape) -> PreparedView {
    if args.member("sellToken"@).text() is None {
        PreparedView::Reject("sellToken is required"@)
    } else if args.member("buyToken"@).text() is None {
        PreparedView::Reject("buyToken is required"@)
    } else if args.member("sellAmount"@).text() is None {
        PreparedView::Reject("sellAmount is required"@)
    } else {
        PreparedView::Call(request_body(args))
    }
}

/// Whether one of the first `n` fills names its source.
pub open spec fn names_source(fills: Seq<JsonShape>, n: int) -> bool
    decreases n,
{
    n > 0 && (names_source(fills, n - 1) || fills[n - 1].member("source"@).text() is Some)
}

/// The sources that the first `n` fills name, with a comma and a blank
/// between one and the next. A fill that names none is passed over.
pub open spec fn sources(fills: Seq<JsonShape>, n: int) -> Seq<char>
    decreases n,
{
    if n <= 0 {
        Seq::<char>::empty()
    } else {
        match fills[n - 1].member("source"@).text() {
            Some(source) => if names_source(fills, n - 1) {
                sources(fills, n - 1) + ", "@ + source
            } else {
                sources(fills, n - 1) + source
            },
            None => sources(fills, n - 1),
        }
    }
}

/// How the route of a swap is worded: the sources of its fills, or
/// `unknown` where the answer holds no list of fills.
pub open spec fn route_text(route: JsonShape) -> Seq<char> {
    match route.items() {
        Some(fills) => sources(fills, fills.len() as int),
        None => "unknown"@,
    }
}

/// How an executed swap is worded.
pub open spec fn report(response: JsonShape) -> Seq<char> {
    "Swap executed via 0x:\nSell: "@
        + response.member("data"@).member("sellAmount"@).text_or("?"@)
        + " "@
        + response.member("data"@).member("sellToken"@).text_or("?"@)
        + "\nBuy: "@
        + response.member("data"@).member("buyToken"@).text_or("?"@)
        + " (got "@
        + response.member("data"@).member("buyAmount"@).text_or("?"@)
        + ")\nRoute: "@
        + route_text(response.member("data"@).member("route"@))
        + "\nTx: "@
        + response.member("data"@).member("txHash"@).text_or("?"@)
        + "\nStatus: "@
        + response.member("data"@).member("status"@).text_or("unknown"@)
}

/// Why the orchestrator did not execute the swap.
pub open spec fn refusal(response: JsonShape) -> Seq<char> {
    response.member("error"@).text_or("Swap failed"@)
}

/// The result of an exchange that ended as `outcome`: the report where the
/// answer tells of success, the orchestrator's refusal where it does not,
/// and a failure with the message of the exchange where there is no answer.
pub open spec fn result_of(outcome: Result<JsonShape, Seq<char>>) -> ToolResultView {
    match outcome {
        Ok(response) => if response.member("success"@).truth_or(false) {
            success_with(report(response))
        } else {
            ToolResultView {
                success: false,
                output: "Swap not executed: "@ + refusal(response),
                error: Some(refusal(response)),
            }
        },
        Err(error) => failure_with(error),
    }
}

/// Appends the route of a swap.
pub fn push_route(out: &mut String, route: &Value)
    ensures
        final(out)@ == old(out)@ + route_text(shape(*route)),
{
    match as_array(route) {
        Some(fills) => {
            let ghost before = out@;
            let ghost all = shapes(fills@);
            let mut named = false;
            let mut i: usize = 0;
            assert(out@ =~= before + sources(all, 0));
            while i < fills.len()
                invariant
                    i <= fills.len(),
                    all == shapes(fills@),
                    named == names_source(all, i as int),
                    out@ == before + sources(all, i as int),
                decreases fills.len() - i,
            {
                let ghost so_far = out@;
                match as_str(member(&fills[i], "source")) {
                    Some(source) => {
                        if named {
                            out.append(", ");
                        }
                        out.append(source);
                        named = true;
                    },
                    None => {},
                }
                i = i + 1;
                assert(out@ =~= before + sources(all, i as int));
            }
        },
        None => {
            out.append("unknown");
        },
    }
}

/// Swaps tokens through the aggregator.
pub struct ExecuteSwapTool {
    config: ClawFoundryConfig,
}

impl ExecuteSwapTool {
    /// A tool that reaches the orchestrator as `config` says.
    pub fn new(config: ClawFoundryConfig) -> (tool: Self)
        ensures
            tool.config() == config,
    {
        ExecuteSwapTool { config }
    }

    /// The configuration that this tool was made with.
    pub closed spec fn config(&self) -> ClawFoundryConfig {
        self.config
    }

    /// The configuration that this tool was made with.
    pub fn configuration(&self) -> (config: &ClawFoundryConfig)
        ensures
            *config == self.config(),
    {
        &self.config
    }

    /// The name under which the orchestrator knows this tool.
    pub fn name(&self) -> (name: &'static str)
        ensures
            name@ == NAME@,
    {
        NAME
    }

    /// What the tool tells of itself.
    pub fn description(&self) -> (description: &'static str)
        ensures
            description@ == DESCRIPTION@,
    {
        DESCRIPTION
    }

    /// The schema of the arguments.
    pub fn parameters_schema(&self) -> (schema: Value)
        ensures
            shape(schema) == schema_shape(),
    {
        let mut properties = empty_object();
        set_member(&mut properties, "sellToken", property("string", SELL_TOKEN_HELP));
        set_member(&mut properties, "buyToken", property("string", BUY_TOKEN_HELP));
        set_member(&mut properties, "sellAmount", property("string", SELL_AMOUNT_HELP));
        set_member(&mut properties, "maxSlippageBps", property("number", MAX_SLIPPAGE_BPS_HELP));
        let mut required = no_values();
        push_text(&mut required, "sellToken");
        push_text(&mut required, "buyToken");
        push_text(&mut required, "sellAmount");
        object_schema(properties, Some(array(required)))
    }

    /// What the arguments `args` call for.
    pub fn prepare(&self, args: &Value) -> (prepared: Prepared)
        ensures
            prepared@ == preparation(shape(*args)),
    {
        if text_at(args, "sellToken").is_none() {
            return Prepared::Reject(String::from_str("sellToken is required"));
        }
        if text_at(args, "buyToken").is_none() {
            return Prepared::Reject(String::from_str("buyToken is required"));
        }
        if text_at(args, "sellAmount").is_none() {
            return Prepared::Reject(String::from_str("sellAmount is required"));
        }
        let mut body = empty_object();
        copy_text(&mut body, args, "sellToken");
        copy_text(&mut body, args, "buyToken");
        copy_text(&mut body, args, "sellAmount");
        copy_unsigned(&mut body, args, "maxSlippageBps");
        Prepared::Call(body)
    }

    /// The result of an exchange that ended as `outcome`: with the answer of
    /// the orchestrator, or with the message of a failure.
    pub fn respond(&self, outcome: Result<Value, String>) -> (result: ToolResult)
        ensures
            result@ == result_of(outcome_view(outcome)),
    {
        match outcome {
            Ok(response) => {
                if truth_or(&response, "success", false) {
                    let data = member(&response, "data");
                    let mut output = String::from_str("Swap executed via 0x:\nSell: ");
                    push_text_or(&mut output, data, "sellAmount", "?");
                    output.append(" ");
                    push_text_or(&mut output, data, "sellToken", "?");
                    output.append("\nBuy: ");
                    push_text_or(&mut output, data, "buyToken", "?");
                    output.append(" (got ");
                    push_text_or(&mut output, data, "buyAmount", "?");
                    output.append(")\nRoute: ");
                    push_route(&mut output, member(data, "route"));
                    output.append("\nTx: ");
                    push_text_or(&mut output, data, "txHash", "?");
                    output.append("\nStatus: ");
                    push_text_or(&mut output, data, "status", "unknown");
                    ToolResult::succeeded(output)
                } else {
                    let error = String::from_str(text_or(&response, "error", "Swap failed"));
                    let mut output = String::from_str("Swap not executed: ");
                    output.append(error.as_str());
                    ToolResult { success: false, output, error: Some(error) }
                }
            },
            Err(error) => ToolResult::failed(error),
        }
    }
}

} // verus!
