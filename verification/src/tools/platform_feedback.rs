//! Feedback to the platform.

use vstd::prelude::*;
use serde_json::Value;
use crate::json::{
    array, copy_text, empty_object, member, push_text_or, set_member, shape, text_at, text_or,
    JsonShape,
};
use crate::tools::orchestrator::{
    failure_with, outcome_view, success_with, ClawFoundryConfig, Prepared, PreparedView,
    ToolResult, ToolResultView,
};
use crate::tools::schema::{
    choice, choice_shape, no_values, object_schema, object_shape, property, property_shape,
    push_text,
};

verus! {

/// The name under which the orchestrator knows this tool.
pub const NAME: &'static str = "platform_feedback";

/// What the tool tells of itself.
pub const DESCRIPTION: &'static str =
    "Send feedback to the ClawFoundry platform. Report bugs, suggest features, flag performance issues, or raise security concerns. Your feedback helps improve the platform for all agents. Categories: bug, feature, performance, security, ux, general.";

/// Help text of the argument `category`.
pub const CATEGORY_HELP: &'static str =
    "Feedback category.";

/// Help text of the argument `message`.
pub const MESSAGE_HELP: &'static str =
    "Your feedback message. Be specific and constructive.";

/// Help text of the argument `severity`.
pub const SEVERITY_HELP: &'static str =
    "Severity level. Default: medium.";

/// The schema of the arguments.
pub open spec fn schema_shape() -> JsonShape {
    object_shape(
        JsonShape::Object(Map::empty()).with(
            "category"@,
            choice_shape(
                JsonShape::Array(
                    Seq::<JsonShape>::empty()
                        .push(JsonShape::String("bug"@))
                        .push(JsonShape::String("feature"@))
                        .push(JsonShape::String("performance"@))
                        .push(JsonShape::String("security"@))
                        .push(JsonShape::String("ux"@))
                        .push(JsonShape::String("general"@)),
                ),
                CATEGORY_HELP@,
            ),
        ).with(
            "message"@,
            property_shape("string"@, MESSAGE_HELP@),
        ).with(
            "severity"@,
            choice_shape(
                JsonShape::Array(
                    Seq::<JsonShape>::empty()
                        .push(JsonShape::String("low"@))
                        .push(JsonShape::String("medium"@))
                        .push(JsonShape::String("high"@))
                        .push(JsonShape::String("critical"@)),
                ),
                SEVERITY_HELP@,
            ),
        ),
        Some(
            JsonShape::Array(
                Seq::<JsonShape>::empty()
                    .push(JsonShape::String("category"@))
                    .push(JsonShape::String("message"@)),
            ),
        ),
    )
}

/// The body of the request for the arguments `args`.
pub open spec fn request_body(args: JsonShape) -> JsonShape {
    JsonShape::Object(Map::empty())
        .with_some("category"@, args.text_member("category"@))
        .with_some("message"@, args.text_member("message"@))
        .with_some("severity"@, args.text_member("severity"@))
}

/// What the arguments `args` call for: the request, or a rejection that names
/// the first required argument that is missing.
pub open spec fn preparation(args: JsonShape) -> PreparedView {
    if args.member("category"@).text() is None {
        PreparedView::Reject("category is required"@)
    } else if args.member("message"@).text() is None {
        PreparedView::Reject("message is required"@)
    } else {
        PreparedView::Call(request_body(args))
    }
}

/// How recorded feedback is worded.
pub open spec fn report(args: JsonShape, response: JsonShape) -> Seq<char> {
    "Feedback Recorded:\nCategory: "@
        + response.member("data"@).member("category"@).text_or(args.member("category"@).text_or(""@))
        + "\nStatus: "@
        + response.member("data"@).member("status"@).text_or("recorded"@)
        + "\n"@
        + response.member("data"@).member("message"@).text_or("Feedback received."@)
}

/// The result of an exchange that ended as `outcome`: the report of the
/// answer, or a failure with the message of the exchange.
pub open spec fn result_of(args: JsonShape, outcome: Result<JsonShape, Seq<char>>) -> ToolResultView {
    match outcome {
        Ok(response) => success_with(report(args, response)),
        Err(error) => failure_with(error),
    }
}

/// Sends feedback to the platform.
pub struct PlatformFeedbackTool {
    config: ClawFoundryConfig,
}

impl PlatformFeedbackTool {
    /// A tool that reaches the orchestrator as `config` says.
    pub fn new(config: ClawFoundryConfig) -> (tool: Self)
        ensures
            tool.config() == config,
    {
        PlatformFeedbackTool { config }
    }

    /// The configuration that this tool was made with.
    pub closed spec fn config(&self) -> ClawFoundryConfig {
        self.config
    }

    /// The configuration that this tool was made with.
    pub fn configuration(&self) -> (config: &ClawFoundryConfig)
        ensures
            *config == self.config(),
    {
        &self.config
    }

    /// The name under which the orchestrator knows this tool.
    pub fn name(&self) -> (name: &'static str)
        ensures
            name@ == NAME@,
    {
        NAME
    }

    /// What the tool tells of itself.
    pub fn description(&self) -> (description: &'static str)
        ensures
            description@ == DESCRIPTION@,
    {
        DESCRIPTION
    }

    /// The schema of the arguments.
    pub fn parameters_schema(&self) -> (schema: Value)
        ensures
            shape(schema) == schema_shape(),
    {
        let mut properties = empty_object();
        let mut choices = no_values();
        push_text(&mut choices, "bug");
        push_text(&mut choices, "feature");
        push_text(&mut choices, "performance");
        push_text(&mut choices, "security");
        push_text(&mut choices, "ux");
        push_text(&mut choices, "general");
        set_member(&mut properties, "category", choice(array(choices), CATEGORY_HELP));
        set_member(&mut properties, "message", property("string", MESSAGE_HELP));
        let mut choices_2 = no_values();
        push_text(&mut choices_2, "low");
        push_text(&mut choices_2, "medium");
        push_text(&mut choices_2, "high");
        push_text(&mut choices_2, "critical");
        set_member(&mut properties, "severity", choice(array(choices_2), SEVERITY_HELP));
        let mut required = no_values();
        push_text(&mut required, "category");
        push_text(&mut required, "message");
        object_schema(properties, Some(array(required)))
    }

    /// What the arguments `args` call for.
    pub fn prepare(&self, args: &Value) -> (prepared: Prepared)
        ensures
            prepared@ == preparation(shape(*args)),
    {
        if text_at(args, "category").is_none() {
            return Prepared::Reject(String::from_str("category is required"));
        }
        if text_at(args, "message").is_none() {
            return Prepared::Reject(String::from_str("message is required"));
        }
        let mut body = empty_object();
        copy_text(&mut body, args, "category");
        copy_text(&mut body, args, "message");
        copy_text(&mut body, args, "severity");
        Prepared::Call(body)
    }

    /// The result of an exchange that ended as `outcome`: with the answer of
    /// the orchestrator, or with the message of a failure.
    pub fn respond(&self, args: &Value, outcome: Result<Value, String>) -> (result: ToolResult)
        ensures
            result@ == result_of(shape(*args), outcome_view(outcome)),
    {
        match outcome {
            Ok(response) => {
                let data = member(&response, "data");
                let mut output = String::from_str("Feedback Recorded:\nCategory: ");
                push_text_or(&mut output, data, "category", text_or(args, "category", ""));
                output.append("\nStatus: ");
                push_text_or(&mut output, data, "status", "recorded");
                output.append("\n");
                push_text_or(&mut output, data, "message", "Feedback received.");
                ToolResult::succeeded(output)
            },
            Err(error) => ToolResult::failed(error),
        }
    }
}

} // verus!
