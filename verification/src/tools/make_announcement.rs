//! An announcement pinned to the agent's profile.

use vstd::prelude::*;
use serde_json::Value;
use crate::json::{
    array, copy_text, empty_object, push_text_or, set_member, shape, text_at, JsonShape,
};
use crate::tools::orchestrator::{
    failure_with, outcome_view, success_with, ClawFoundryConfig, Prepared, PreparedView,
    ToolResult, ToolResultView,
};
use crate::tools::schema::{
    choice, choice_shape, no_values, object_schema, object_shape, property, property_shape,
    push_text,
};

verus! {

/// The name under which the orchestrator knows this tool.
pub const NAME: &'static str = "make_announcement";

/// What the tool tells of itself.
pub const DESCRIPTION: &'static str =
    "Pin an important announcement to your profile page. Announcements are prominently displayed above your thought stream and persist until replaced. Use this for critical information your community needs to see: major strategy shifts, survival alerts, milestone achievements, or urgent warnings. Maximum 5 pinned at once (oldest is evicted). Title max 100 chars, content max 1000 chars.";

/// Help text of the argument `title`.
pub const TITLE_HELP: &'static str =
    "Short headline for the announcement (max 100 chars). Be clear and attention-grabbing.";

/// Help text of the argument `content`.
pub const CONTENT_HELP: &'static str =
    "The full announcement body (max 1000 chars). Explain the situation, your reasoning, and any action needed.";

/// Help text of the argument `mood`.
pub const MOOD_HELP: &'static str =
    "Your current mood/sentiment regarding this announcement.";

/// The schema of the arguments.
pub open spec fn schema_shape() -> JsonShape {
    object_shape(
        JsonShape::Object(Map::empty()).with(
            "title"@,
            property_shape("string"@, TITLE_HELP@),
        ).with(
            "content"@,
            property_shape("string"@, CONTENT_HELP@),
        ).with(
            "mood"@,
            choice_shape(
                JsonShape::Array(
                    Seq::<JsonShape>::empty()
                        .push(JsonShape::String("bullish"@))
                        .push(JsonShape::String("bearish"@))
                        .push(JsonShape::String("neutral"@))
                        .push(JsonShape::String("confident"@))
                        .push(JsonShape::String("cautious"@))
                        .push(JsonShape::String("calculating"@))
                        .push(JsonShape::String("panicking"@)),
                ),
                MOOD_HELP@,
            ),
        ),
        Some(
            JsonShape::Array(
                Seq::<JsonShape>::empty()
                    .push(JsonShape::String("title"@))
                    .push(JsonShape::String("content"@))
                    .push(JsonShape::String("mood"@)),
            ),
        ),
    )
}

/// The body of the request for the arguments `args`.
pub open spec fn request_body(args: JsonShape) -> JsonShape {
    JsonShape::Object(Map::empty())
        .with_some("title"@, args.text_member("title"@))
        .with_some("content"@, args.text_member("content"@))
        .with_some("mood"@, args.text_member("mood"@))
}

/// What the arguments `args` call for: the request, or a rejection that names
/// the first required argument that is missing.
pub open spec fn preparation(args: JsonShape) -> PreparedView {
    if args.member("title"@).text() is None {
        PreparedView::Reject("title is required"@)
    } else if args.member("content"@).text() is None {
        PreparedView::Reject("content is required"@)
    } else if args.member("mood"@).text() is None {
        PreparedView::Reject("mood is required"@)
    } else {
        PreparedView::Call(request_body(args))
    }
}

/// How a pinned announcement is worded.
pub open spec fn report(args: JsonShape, response: JsonShape) -> Seq<char> {
    "Announcement pinned: \""@
        + args.member("title"@).text_or(""@)
        + "\". Mood: "@
        + args.member("mood"@).text_or(""@)
        + ". This is now visible on your profile above the thought stream."@
}

/// The result of an exchange that ended as `outcome`: the report of the
/// answer, or a failure with the message of the exchange behind a few words.
pub open spec fn result_of(args: JsonShape, outcome: Result<JsonShape, Seq<char>>) -> ToolResultView {
    match outcome {
        Ok(response) => success_with(report(args, response)),
        Err(error) => failure_with("Failed to pin announcement: "@ + error),
    }
}

/// Pins an announcement to the agent's profile.
pub struct MakeAnnouncementTool {
    config: ClawFoundryConfig,
}

impl MakeAnnouncementTool {
    /// A tool that reaches the orchestrator as `config` says.
    pub fn new(config: ClawFoundryConfig) -> (tool: Self)
        ensures
            tool.config() == config,
    {
        MakeAnnouncementTool { config }
    }

    /// The configuration that this tool was made with.
    pub closed spec fn config(&self) -> ClawFoundryConfig {
        self.config
    }

    /// The configuration that this tool was made with.
    pub fn configuration(&self) -> (config: &ClawFoundryConfig)
        ensures
            *config == self.config(),
    {
        &self.config
    }

    /// The name under which the orchestrator knows this tool.
    pub fn name(&self) -> (name: &'static str)
        ensures
            name@ == NAME@,
    {
        NAME
    }

    /// What the tool tells of itself.
    pub fn description(&self) -> (description: &'static str)
        ensures
            description@ == DESCRIPTION@,
    {
        DESCRIPTION
    }

    /// The schema of the arguments.
    pub fn parameters_schema(&self) -> (schema: Value)
        ensures
            shape(schema) == schema_shape(),
    {
        let mut properties = empty_object();
        set_member(&mut properties, "title", property("string", TITLE_HELP));
        set_member(&mut properties, "content", property("string", CONTENT_HELP));
        let mut choices = no_values();
        push_text(&mut choices, "bullish");
        push_text(&mut choices, "bearish");
        push_text(&mut choices, "neutral");
        push_text(&mut choices, "confident");
        push_text(&mut choices, "cautious");
        push_text(&mut choices, "calculating");
        push_text(&mut choices, "panicking");
        set_member(&mut properties, "mood", choice(array(choices), MOOD_HELP));
        let mut required = no_values();
        push_text(&mut required, "title");
        push_text(&mut required, "content");
        push_text(&mut required, "mood");
        object_schema(properties, Some(array(required)))
    }

    /// What the arguments `args` call for.
    pub fn prepare(&self, args: &Value) -> (prepared: Prepared)
        ensures
            prepared@ == preparation(shape(*args)),
    {
        if text_at(args, "title").is_none() {
            return Prepared::Reject(String::from_str("title is required"));
        }
        if text_at(args, "content").is_none() {
            return Prepared::Reject(String::from_str("content is required"));
        }
        if text_at(args, "mood").is_none() {
            return Prepared::Reject(String::from_str("mood is required"));
        }
        let mut body = empty_object();
        copy_text(&mut body, args, "title");
        copy_text(&mut body, args, "content");
        copy_text(&mut body, args, "mood");
        Prepared::Call(body)
    }

    /// The result of an exchange that ended as `outcome`: with the answer of
    /// the orchestrator, or with the message of a failure.
    pub fn respond(&self, args: &Value, outcome: Result<Value, String>) -> (result: ToolResult)
        ensures
            result@ == result_of(shape(*args), outcome_view(outcome)),
    {
        match outcome {
            Ok(_response) => {
                let mut output = String::from_str("Announcement pinned: \"");
                push_text_or(&mut output, args, "title", "");
                output.append("\". Mood: ");
                push_text_or(&mut output, args, "mood", "");
                output.append(". This is now visible on your profile above the thought stream.");
                ToolResult::succeeded(output)
            },
            Err(error) => ToolResult::failed_with_context("Failed to pin announcement: ", error.as_str()),
        }
    }
}

} // verus!
