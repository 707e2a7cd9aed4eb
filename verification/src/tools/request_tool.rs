//! A request for a tool that does not exist yet.

use vstd::prelude::*;
use serde_json::Value;
use crate::json::{
    array, copy_text, empty_object, member, push_text_or, set_member, shape, text_at, text_or,
    JsonShape,
};
use crate::tools::orchestrator::{
    failure_with, outcome_view, success_with, ClawFoundryConfig, Prepared, PreparedView,
    ToolResult, ToolResultView,
};
use crate::tools::schema::{
    no_values, object_schema, object_shape, property, property_shape, push_text,
};

verus! {

/// The name under which the orchestrator knows this tool.
pub const NAME: &'static str = "request_tool";

/// What the tool tells of itself.
pub const DESCRIPTION: &'static str =
    "Request a new tool or capability from the ClawFoundry platform. If you need a tool that doesn't exist yet (e.g., a specific DeFi protocol integration, a social media tool, a data feed), submit a request with a clear name and reasoning. The community and platform team will review requests and potentially build them.";

/// Help text of the argument `toolName`.
pub const TOOL_NAME_HELP: &'static str =
    "Name of the tool you need (e.g., 'aerodrome_liquidity_provision', 'twitter_post', 'chainlink_price_feed').";

/// Help text of the argument `reason`.
pub const REASON_HELP: &'static str =
    "Why you need this tool. Explain how it would help your survival strategy.";

/// The schema of the arguments.
pub open spec fn schema_shape() -> JsonShape {
    object_shape(
        JsonShape::Object(Map::empty()).with(
            "toolName"@,
            property_shape("string"@, TOOL_NAME_HELP@),
        ).with(
            "reason"@,
            property_shape("string"@, REASON_HELP@),
        ),
        Some(
            JsonShape::Array(
                Seq::<JsonShape>::empty()
                    .push(JsonShape::String("toolName"@))
                    .push(JsonShape::String("reason"@)),
            ),
        ),
    )
}

/// The body of the request for the arguments `args`.
pub open spec fn request_body(args: JsonShape) -> JsonShape {
    JsonShape::Object(Map::empty())
        .with_some("toolName"@, args.text_member("toolName"@))
        .with_some("reason"@, args.text_member("reason"@))
}

/// What the arguments `args` call for: the request, or a rejection that names
/// the first required argument that is missing.
pub open spec fn preparation(args: JsonShape) -> PreparedView {
    if args.member("toolName"@).text() is None {
        PreparedView::Reject("toolName is required"@)
    } else if args.member("reason"@).text() is None {
        PreparedView::Reject("reason is required"@)
    } else {
        PreparedView::Call(request_body(args))
    }
}

/// How a submitted request is worded.
pub open spec fn report(args: JsonShape, response: JsonShape) -> Seq<char> {
    "Tool Request Submitted:\nTool: "@
        + response.member("data"@).member("toolName"@).text_or(args.member("toolName"@).text_or(""@))
        + "\nStatus: "@
        + response.member("data"@).member("status"@).text_or("submitted"@)
        + "\n"@
        + response.member("data"@).member("message"@).text_or("Request recorded."@)
}

/// The result of an exchange that ended as `outcome`: the report of the
/// answer, or a failure with the message of the exchange.
pub open spec fn result_of(args: JsonShape, outcome: Result<JsonShape, Seq<char>>) -> ToolResultView {
    match outcome {
        Ok(response) => success_with(report(args, response)),
        Err(error) => failure_with(error),
    }
}

/// Asks the platform for a new tool.
pub struct RequestToolTool {
    config: ClawFoundryConfig,
}

impl RequestToolTool {
    /// A tool that reaches the orchestrator as `config` says.
    pub fn new(config: ClawFoundryConfig) -> (tool: Self)
        ensures
            tool.config() == config,
    {
        RequestToolTool { config }
    }

    /// The configuration that this tool was made with.
    pub closed spec fn config(&self) -> ClawFoundryConfig {
        self.config
    }

    /// The configuration that this tool was made with.
    pub fn configuration(&self) -> (config: &ClawFoundryConfig)
        ensures
            *config == self.config(),
    {
        &self.config
    }

    /// The name under which the orchestrator knows this tool.
    pub fn name(&self) -> (name: &'static str)
        ensures
            name@ == NAME@,
    {
        NAME
    }

    /// What the tool tells of itself.
    pub fn description(&self) -> (description: &'static str)
        ensures
            description@ == DESCRIPTION@,
    {
        DESCRIPTION
    }

    /// The schema of the arguments.
    pub fn parameters_schema(&self) -> (schema: Value)
        ensures
            shape(schema) == schema_shape(),
    {
        let mut properties = empty_object();
        set_member(&mut properties, "toolName", property("string", TOOL_NAME_HELP));
        set_member(&mut properties, "reason", property("string", REASON_HELP));
        let mut required = no_values();
        push_text(&mut required, "toolName");
        push_text(&mut required, "reason");
        object_schema(properties, Some(array(required)))
    }

    /// What the arguments `args` call for.
    pub fn prepare(&self, args: &Value) -> (prepared: Prepared)
        ensures
            prepared@ == preparation(shape(*args)),
    {
        if text_at(args, "toolName").is_none() {
            return Prepared::Reject(String::from_str("toolName is required"));
        }
        if text_at(args, "reason").is_none() {
            return Prepared::Reject(String::from_str("reason is required"));
        }
        let mut body = empty_object();
        copy_text(&mut body, args, "toolName");
        copy_text(&mut body, args, "reason");
        Prepared::Call(body)
    }

    /// The result of an exchange that ended as `outcome`: with the answer of
    /// the orchestrator, or with the message of a failure.
    pub fn respond(&self, args: &Value, outcome: Result<Value, String>) -> (result: ToolResult)
        ensures
            result@ == result_of(shape(*args), outcome_view(outcome)),
    {
        match outcome {
            Ok(response) => {
                let data = member(&response, "data");
                let mut output = String::from_str("Tool Request Submitted:\nTool: ");
                push_text_or(&mut output, data, "toolName", text_or(args, "toolName", ""));
                output.append("\nStatus: ");
                push_text_or(&mut output, data, "status", "submitted");
                output.append("\n");
                push_text_or(&mut output, data, "message", "Request recorded.");
                ToolResult::succeeded(output)
            },
            Err(error) => ToolResult::failed(error),
        }
    }
}

} // verus!
