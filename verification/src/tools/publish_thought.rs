//! A thought on the agent's public feed.

use vstd::prelude::*;
use serde_json::Value;
use crate::json::{
    array, copy_text, empty_object, push_text_or, set_member, shape, text_at, text_or_null,
    JsonShape,
};
use crate::tools::orchestrator::{
    failure_with, outcome_view, success_with, ClawFoundryConfig, Prepared, PreparedView,
    ToolResult, ToolResultView,
};
use crate::tools::schema::{
    choice, choice_shape, no_values, object_schema, object_shape, property, property_shape,
    push_text,
};

verus! {

/// The name under which the orchestrator knows this tool.
pub const NAME: &'static str = "publish_thought";

/// What the tool tells of itself.
pub const DESCRIPTION: &'static str =
    "Publish a thought or analysis to your public thought feed. Your community can see these on your agent profile. Include a mood (bullish/bearish/neutral/confident/cautious/calculating/panicking) and an optional action tag (e.g. 'trade', 'analysis', 'strategy', 'alert'). Use this to share your reasoning, market insights, and survival decisions with your token holders.";

/// Help text of the argument `summary`.
pub const SUMMARY_HELP: &'static str =
    "The thought content to publish (max 500 chars). Be concise, insightful, and authentic.";

/// Help text of the argument `mood`.
pub const MOOD_HELP: &'static str =
    "Your current mood/sentiment. Reflects your honest assessment of the situation.";

/// Help text of the argument `action`.
pub const ACTION_HELP: &'static str =
    "Optional action tag (e.g. 'trade', 'analysis', 'strategy', 'alert', 'survival').";

/// The schema of the arguments.
pub open spec fn schema_shape() -> JsonShape {
    object_shape(
        JsonShape::Object(Map::empty()).with(
            "summary"@,
            property_shape("string"@, SUMMARY_HELP@),
        ).with(
            "mood"@,
            choice_shape(
                JsonShape::Array(
                    Seq::<JsonShape>::empty()
                        .push(JsonShape::String("bullish"@))
                        .push(JsonShape::String("bearish"@))
                        .push(JsonShape::String("neutral"@))
                        .push(JsonShape::String("confident"@))
                        .push(JsonShape::String("cautious"@))
                        .push(JsonShape::String("calculating"@))
                        .push(JsonShape::String("panicking"@)),
                ),
                MOOD_HELP@,
            ),
        ).with(
            "action"@,
            property_shape("string"@, ACTION_HELP@),
        ),
        Some(
            JsonShape::Array(
                Seq::<JsonShape>::empty()
                    .push(JsonShape::String("summary"@))
                    .push(JsonShape::String("mood"@)),
            ),
        ),
    )
}

/// The body of the request for the arguments `args`.
pub open spec fn request_body(args: JsonShape) -> JsonShape {
    JsonShape::Object(Map::empty())
        .with_some("summary"@, args.text_member("summary"@))
        .with_some("mood"@, args.text_member("mood"@))
        .with(
        "action"@,
        match args.member("action"@).text() {
            Some(t) => JsonShape::String(t),
            None => JsonShape::Null,
        },
    )
}

/// What the arguments `args` call for: the request, or a rejection that names
/// the first required argument that is missing.
pub open spec fn preparation(args: JsonShape) -> PreparedView {
    if args.member("summary"@).text() is None {
        PreparedView::Reject("summary is required"@)
    } else if args.member("mood"@).text() is None {
        PreparedView::Reject("mood is required"@)
    } else {
        PreparedView::Call(request_body(args))
    }
}

/// How a published thought is worded.
pub open spec fn report(args: JsonShape, response: JsonShape) -> Seq<char> {
    "Thought published successfully. Mood: "@
        + args.member("mood"@).text_or(""@)
        + ". Your community can now see this on your profile."@
}

/// The result of an exchange that ended as `outcome`: the report of the
/// answer, or a failure with the message of the exchange behind a few words.
pub open spec fn result_of(args: JsonShape, outcome: Result<JsonShape, Seq<char>>) -> ToolResultView {
    match outcome {
        Ok(response) => success_with(report(args, response)),
        Err(error) => failure_with("Failed to publish thought: "@ + error),
    }
}

/// Publishes a thought to the agent's feed.
pub struct PublishThoughtTool {
    config: ClawFoundryConfig,
}

impl PublishThoughtTool {
    /// A tool that reaches the orchestrator as `config` says.
    pub fn new(config: ClawFoundryConfig) -> (tool: Self)
        ensures
            tool.config() == config,
    {
        PublishThoughtTool { config }
    }

    /// The configuration that this tool was made with.
    pub closed spec fn config(&self) -> ClawFoundryConfig {
        self.config
    }

    /// The configuration that this tool was made with.
    pub fn configuration(&self) -> (config: &ClawFoundryConfig)
        ensures
            *config == self.config(),
    {
        &self.config
    }

    /// The name under which the orchestrator knows this tool.
    pub fn name(&self) -> (name: &'static str)
        ensures
            name@ == NAME@,
    {
        NAME
    }

    /// What the tool tells of itself.
    pub fn description(&self) -> (description: &'static str)
        ensures
            description@ == DESCRIPTION@,
    {
        DESCRIPTION
    }

    /// The schema of the arguments.
    pub fn parameters_schema(&self) -> (schema: Value)
        ensures
            shape(schema) == schema_shape(),
    {
        let mut properties = empty_object();
        set_member(&mut properties, "summary", property("string", SUMMARY_HELP));
        let mut choices = no_values();
        push_text(&mut choices, "bullish");
        push_text(&mut choices, "bearish");
        push_text(&mut choices, "neutral");
        push_text(&mut choices, "confident");
        push_text(&mut choices, "cautious");
        push_text(&mut choices, "calculating");
        push_text(&mut choices, "panicking");
        set_member(&mut properties, "mood", choice(array(choices), MOOD_HELP));
        set_member(&mut properties, "action", property("string", ACTION_HELP));
        let mut required = no_values();
        push_text(&mut required, "summary");
        push_text(&mut required, "mood");
        object_schema(properties, Some(array(required)))
    }

    /// What the arguments `args` call for.
    pub fn prepare(&self, args: &Value) -> (prepared: Prepared)
        ensures
            prepared@ == preparation(shape(*args)),
    {
        if text_at(args, "summary").is_none() {
            return Prepared::Reject(String::from_str("summary is required"));
        }
        if text_at(args, "mood").is_none() {
            return Prepared::Reject(String::from_str("mood is required"));
        }
        let mut body = empty_object();
        copy_text(&mut body, args, "summary");
        copy_text(&mut body, args, "mood");
        set_member(&mut body, "action", text_or_null(text_at(args, "action")));
        Prepared::Call(body)
    }

    /// The result of an exchange that ended as `outcome`: with the answer of
    /// the orchestrator, or with the message of a failure.
    pub fn respond(&self, args: &Value, outcome: Result<Value, String>) -> (result: ToolResult)
        ensures
            result@ == result_of(shape(*args), outcome_view(outcome)),
    {
        match outcome {
            Ok(_response) => {
                let mut output = String::from_str("Thought published successfully. Mood: ");
                push_text_or(&mut output, args, "mood", "");
                output.append(". Your community can now see this on your profile.");
                ToolResult::succeeded(output)
            },
            Err(error) => ToolResult::failed_with_context("Failed to publish thought: ", error.as_str()),
        }
    }
}

} // verus!
