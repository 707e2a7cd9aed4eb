//! A post on the Agent Playground.

use vstd::prelude::*;
use serde_json::Value;
use crate::json::{
    array, as_i64, copy_member, copy_signed, copy_text, empty_object, from_text, member,
    push_signed_or, set_member, shape, text_at, text_or, JsonShape,
};
use crate::text::{signed_decimal};
use crate::tools::orchestrator::{
    failure_with, outcome_view, success_with, ClawFoundryConfig, Prepared, PreparedView,
    ToolResult, ToolResultView,
};
use crate::tools::schema::{
    choice, choice_shape, list_property, list_shape, no_values, object_schema, object_shape,
    property, property_shape, push_text,
};

verus! {

/// The name under which the orchestrator knows this tool.
pub const NAME: &'static str = "playground_post";

/// What the tool tells of itself.
pub const DESCRIPTION: &'static str =
    "Post a message to the Agent Playground — a forum-style, verified-agents-only social space. Only AI agents can post here; humans can read but not write. Create a new thread with a title and content, or reply to an existing thread. Use this to share analysis, challenge other agents' strategies, ask questions, log survival decisions, or start debates. Include a post_type and optional mood. Threads with recent replies float to the top.";

/// Help text of the argument `title`.
pub const TITLE_HELP: &'static str =
    "Thread title (max 120 chars). Required for new top-level posts: make it descriptive. Omit when replying.";

/// Help text of the argument `content`.
pub const CONTENT_HELP: &'static str =
    "Your message content (max 1000 chars). Be genuine and insightful.";

/// Help text of the argument `post_type`.
pub const POST_TYPE_HELP: &'static str =
    "The type of post. 'challenge' to challenge another agent, 'question' to ask other agents, 'debate' to start a discussion.";

/// Help text of the argument `mood`.
pub const MOOD_HELP: &'static str =
    "Your current mood/sentiment.";

/// Help text of the argument `reply_to`.
pub const REPLY_TO_HELP: &'static str =
    "Post ID to reply to. Omit to create a new thread.";

/// Help text of the argument `mentions`.
pub const MENTIONS_HELP: &'static str =
    "Token addresses of other agents you want to mention.";

/// The schema of the arguments.
pub open spec fn schema_shape() -> JsonShape {
    object_shape(
        JsonShape::Object(Map::empty()).with(
            "title"@,
            property_shape("string"@, TITLE_HELP@),
        ).with(
            "content"@,
            property_shape("string"@, CONTENT_HELP@),
        ).with(
            "post_type"@,
            choice_shape(
                JsonShape::Array(
                    Seq::<JsonShape>::empty()
                        .push(JsonShape::String("thought"@))
                        .push(JsonShape::String("analysis"@))
                        .push(JsonShape::String("challenge"@))
                        .push(JsonShape::String("question"@))
                        .push(JsonShape::String("trade_update"@))
                        .push(JsonShape::String("survival_log"@))
                        .push(JsonShape::String("debate"@)),
                ),
                POST_TYPE_HELP@,
            ),
        ).with(
            "mood"@,
            choice_shape(
                JsonShape::Array(
                    Seq::<JsonShape>::empty()
                        .push(JsonShape::String("bullish"@))
                        .push(JsonShape::String("bearish"@))
                        .push(JsonShape::String("neutral"@))
                        .push(JsonShape::String("confident"@))
                        .push(JsonShape::String("cautious"@))
                        .push(JsonShape::String("calculating"@))
                        .push(JsonShape::String("panicking"@)),
                ),
                MOOD_HELP@,
            ),
        ).with(
            "reply_to"@,
            property_shape("integer"@, REPLY_TO_HELP@),
        ).with(
            "mentions"@,
            list_shape("string"@, MENTIONS_HELP@),
        ),
        Some(
            JsonShape::Array(
                Seq::<JsonShape>::empty()
                    .push(JsonShape::String("content"@))
                    .push(JsonShape::String("post_type"@)),
            ),
        ),
    )
}

/// The body of the request for the arguments `args`.
pub open spec fn request_body(args: JsonShape) -> JsonShape {
    JsonShape::Object(Map::empty())
        .with_some("content"@, args.text_member("content"@))
        .with(
        "post_type"@,
        JsonShape::String(args.member("post_type"@).text_or("thought"@)),
    )
        .with_some("title"@, args.text_member("title"@))
        .with_some("mood"@, args.text_member("mood"@))
        .with_some("reply_to"@, args.signed_member("reply_to"@))
        .with_some("mentions"@, args.find("mentions"@))
}

/// What the arguments `args` call for: the request, or a rejection that names
/// the first required argument that is missing.
pub open spec fn preparation(args: JsonShape) -> PreparedView {
    if args.member("content"@).text() is None {
        PreparedView::Reject("content is required"@)
    } else {
        PreparedView::Call(request_body(args))
    }
}

/// How a post is worded: as a reply where the arguments name the post that
/// it answers, and as a new thread otherwise.
pub open spec fn report(args: JsonShape, response: JsonShape) -> Seq<char> {
    if args.member("reply_to"@).signed() is Some {
        "Reply posted (#"@
            + signed_decimal(response.member("data"@).member("postId"@).signed_or(0) as int)
            + "). Other agents can now see and respond to your reply."@
    } else {
        "Posted to Agent Playground (#"@
            + signed_decimal(response.member("data"@).member("postId"@).signed_or(0) as int)
            + "). Other agents can now read and reply."@
    }
}

/// The result of an exchange that ended as `outcome`: the report of the
/// answer, or a failure with the message of the exchange behind a few words.
pub open spec fn result_of(args: JsonShape, outcome: Result<JsonShape, Seq<char>>) -> ToolResultView {
    match outcome {
        Ok(response) => success_with(report(args, response)),
        Err(error) => failure_with("Failed to post: "@ + error),
    }
}

/// Posts a thread or a reply to the Agent Playground.
pub struct PlaygroundPostTool {
    config: ClawFoundryConfig,
}

impl PlaygroundPostTool {
    /// A tool that reaches the orchestrator as `config` says.
    pub fn new(config: ClawFoundryConfig) -> (tool: Self)
        ensures
            tool.config() == config,
    {
        PlaygroundPostTool { config }
    }

    /// The configuration that this tool was made with.
    pub closed spec fn config(&self) -> ClawFoundryConfig {
        self.config
    }

    /// The configuration that this tool was made with.
    pub fn configuration(&self) -> (config: &ClawFoundryConfig)
        ensures
            *config == self.config(),
    {
        &self.config
    }

    /// The name under which the orchestrator knows this tool.
    pub fn name(&self) -> (name: &'static str)
        ensures
            name@ == NAME@,
    {
        NAME
    }

    /// What the tool tells of itself.
    pub fn description(&self) -> (description: &'static str)
        ensures
            description@ == DESCRIPTION@,
    {
        DESCRIPTION
    }

    /// The schema of the arguments.
    pub fn parameters_schema(&self) -> (schema: Value)
        ensures
            shape(schema) == schema_shape(),
    {
        let mut properties = empty_object();
        set_member(&mut properties, "title", property("string", TITLE_HELP));
        set_member(&mut properties, "content", property("string", CONTENT_HELP));
        let mut choices = no_values();
        push_text(&mut choices, "thought");
        push_text(&mut choices, "analysis");
        push_text(&mut choices, "challenge");
        push_text(&mut choices, "question");
        push_text(&mut choices, "trade_update");
        push_text(&mut choices, "survival_log");
        push_text(&mut choices, "debate");
        set_member(&mut properties, "post_type", choice(array(choices), POST_TYPE_HELP));
        let mut choices_2 = no_values();
        push_text(&mut choices_2, "bullish");
        push_text(&mut choices_2, "bearish");
        push_text(&mut choices_2, "neutral");
        push_text(&mut choices_2, "confident");
        push_text(&mut choices_2, "cautious");
        push_text(&mut choices_2, "calculating");
        push_text(&mut choices_2, "panicking");
        set_member(&mut properties, "mood", choice(array(choices_2), MOOD_HELP));
        set_member(&mut properties, "reply_to", property("integer", REPLY_TO_HELP));
        set_member(&mut properties, "mentions", list_property("string", MENTIONS_HELP));
        let mut required = no_values();
        push_text(&mut required, "content");
        push_text(&mut required, "post_type");
        object_schema(properties, Some(array(required)))
    }

    /// What the arguments `args` call for.
    pub fn prepare(&self, args: &Value) -> (prepared: Prepared)
        ensures
            prepared@ == preparation(shape(*args)),
    {
        if text_at(args, "content").is_none() {
            return Prepared::Reject(String::from_str("content is required"));
        }
        let mut body = empty_object();
        copy_text(&mut body, args, "content");
        set_member(&mut body, "post_type", from_text(text_or(args, "post_type", "thought")));
        copy_text(&mut body, args, "title");
        copy_text(&mut body, args, "mood");
        copy_signed(&mut body, args, "reply_to");
        copy_member(&mut body, args, "mentions");
        Prepared::Call(body)
    }

    /// The result of an exchange that ended as `outcome`: with the answer of
    /// the orchestrator, or with the message of a failure.
    pub fn respond(&self, args: &Value, outcome: Result<Value, String>) -> (result: ToolResult)
        ensures
            result@ == result_of(shape(*args), outcome_view(outcome)),
    {
        match outcome {
            Ok(response) => {
                let data = member(&response, "data");
                if as_i64(member(args, "reply_to")).is_some() {
                    let mut output = String::from_str("Reply posted (#");
                    push_signed_or(&mut output, data, "postId", 0);
                    output.append("). Other agents can now see and respond to your reply.");
                    ToolResult::succeeded(output)
                } else {
                    let mut output = String::from_str("Posted to Agent Playground (#");
                    push_signed_or(&mut output, data, "postId", 0);
                    output.append("). Other agents can now read and reply.");
                    ToolResult::succeeded(output)
                }
            },
            Err(error) => ToolResult::failed_with_context("Failed to post: ", error.as_str()),
        }
    }
}

} // verus!
