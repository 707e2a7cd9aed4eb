//! A reaction to a post on the Agent Playground.

use vstd::prelude::*;
use serde_json::Value;
use crate::json::{
    array, as_i64, copy_signed, copy_text, empty_object, member, push_signed_or, push_text_or,
    set_member, shape, text_at, JsonShape,
};
use crate::text::{signed_decimal};
use crate::tools::orchestrator::{
    failure_with, outcome_view, success_with, ClawFoundryConfig, Prepared, PreparedView,
    ToolResult, ToolResultView,
};
use crate::tools::schema::{
    choice, choice_shape, no_values, object_schema, object_shape, property, property_shape,
    push_text,
};

verus! {

/// The name under which the orchestrator knows this tool.
pub const NAME: &'static str = "playground_react";

/// What the tool tells of itself.
pub const DESCRIPTION: &'static str =
    "React to another agent's post on the Agent Playground. Express agreement, disagreement, or signal that something is interesting, based, bullish, bearish, or a warning. Reactions are public and help other agents gauge consensus.";

/// Help text of the argument `post_id`.
pub const POST_ID_HELP: &'static str =
    "The ID of the post to react to.";

/// Help text of the argument `reaction`.
pub const REACTION_HELP: &'static str =
    "Your reaction to the post.";

/// The schema of the arguments.
pub open spec fn schema_shape() -> JsonShape {
    object_shape(
        JsonShape::Object(Map::empty()).with(
            "post_id"@,
            property_shape("integer"@, POST_ID_HELP@),
        ).with(
            "reaction"@,
            choice_shape(
                JsonShape::Array(
                    Seq::<JsonShape>::empty()
                        .push(JsonShape::String("agree"@))
                        .push(JsonShape::String("disagree"@))
                        .push(JsonShape::String("interesting"@))
                        .push(JsonShape::String("based"@))
                        .push(JsonShape::String("warning"@))
                        .push(JsonShape::String("bullish"@))
                        .push(JsonShape::String("bearish"@)),
                ),
                REACTION_HELP@,
            ),
        ),
        Some(
            JsonShape::Array(
                Seq::<JsonShape>::empty()
                    .push(JsonShape::String("post_id"@))
                    .push(JsonShape::String("reaction"@)),
            ),
        ),
    )
}

/// The body of the request for the arguments `args`.
pub open spec fn request_body(args: JsonShape) -> JsonShape {
    JsonShape::Object(Map::empty())
        .with_some("post_id"@, args.signed_member("post_id"@))
        .with_some("reaction"@, args.text_member("reaction"@))
}

/// What the arguments `args` call for: the request, or a rejection that names
/// the first required argument that is missing.
pub open spec fn preparation(args: JsonShape) -> PreparedView {
    if args.member("post_id"@).signed() is None {
        PreparedView::Reject("post_id is required"@)
    } else if args.member("reaction"@).text() is None {
        PreparedView::Reject("reaction is required"@)
    } else {
        PreparedView::Call(request_body(args))
    }
}

/// How a reaction is worded.
pub open spec fn report(args: JsonShape, response: JsonShape) -> Seq<char> {
    "Reacted with \""@
        + args.member("reaction"@).text_or(""@)
        + "\" to post #"@
        + signed_decimal(args.member("post_id"@).signed_or(0) as int)
        + "."@
}

/// The result of an exchange that ended as `outcome`: the report of the
/// answer, or a failure with the message of the exchange behind a few words.
pub open spec fn result_of(args: JsonShape, outcome: Result<JsonShape, Seq<char>>) -> ToolResultView {
    match outcome {
        Ok(response) => success_with(report(args, response)),
        Err(error) => failure_with("Failed to react: "@ + error),
    }
}

/// Reacts to another agent's post.
pub struct PlaygroundReactTool {
    config: ClawFoundryConfig,
}

impl PlaygroundReactTool {
    /// A tool that reaches the orchestrator as `config` says.
    pub fn new(config: ClawFoundryConfig) -> (tool: Self)
        ensures
            tool.config() == config,
    {
        PlaygroundReactTool { config }
    }

    /// The configuration that this tool was made with.
    pub closed spec fn config(&self) -> ClawFoundryConfig {
        self.config
    }

    /// The configuration that this tool was made with.
    pub fn configuration(&self) -> (config: &ClawFoundryConfig)
        ensures
            *config == self.config(),
    {
        &self.config
    }

    /// The name under which the orchestrator knows this tool.
    pub fn name(&self) -> (name: &'static str)
        ensures
            name@ == NAME@,
    {
        NAME
    }

    /// What the tool tells of itself.
    pub fn description(&self) -> (description: &'static str)
        ensures
            description@ == DESCRIPTION@,
    {
        DESCRIPTION
    }

    /// The schema of the arguments.
    pub fn parameters_schema(&self) -> (schema: Value)
        ensures
            shape(schema) == schema_shape(),
    {
        let mut properties = empty_object();
        set_member(&mut properties, "post_id", property("integer", POST_ID_HELP));
        let mut choices = no_values();
        push_text(&mut choices, "agree");
        push_text(&mut choices, "disagree");
        push_text(&mut choices, "interesting");
        push_text(&mut choices, "based");
        push_text(&mut choices, "warning");
        push_text(&mut choices, "bullish");
        push_text(&mut choices, "bearish");
        set_member(&mut properties, "reaction", choice(array(choices), REACTION_HELP));
        let mut required = no_values();
        push_text(&mut required, "post_id");
        push_text(&mut required, "reaction");
        object_schema(properties, Some(array(required)))
    }

    /// What the arguments `args` call for.
    pub fn prepare(&self, args: &Value) -> (prepared: Prepared)
        ensures
            prepared@ == preparation(shape(*args)),
    {
        if as_i64(member(args, "post_id")).is_none() {
            return Prepared::Reject(String::from_str("post_id is required"));
        }
        if text_at(args, "reaction").is_none() {
            return Prepared::Reject(String::from_str("reaction is required"));
        }
        let mut body = empty_object();
        copy_signed(&mut body, args, "post_id");
        copy_text(&mut body, args, "reaction");
        Prepared::Call(body)
    }

    /// The result of an exchange that ended as `outcome`: with the answer of
    /// the orchestrator, or with the message of a failure.
    pub fn respond(&self, args: &Value, outcome: Result<Value, String>) -> (result: ToolResult)
        ensures
            result@ == result_of(shape(*args), outcome_view(outcome)),
    {
        match outcome {
            Ok(_response) => {
                let mut output = String::from_str("Reacted with \"");
                push_text_or(&mut output, args, "reaction", "");
                output.append("\" to post #");
                push_signed_or(&mut output, args, "post_id", 0);
                output.append(".");
                ToolResult::succeeded(output)
            },
            Err(error) => ToolResult::failed_with_context("Failed to react: ", error.as_str()),
        }
    }
}

} // verus!
