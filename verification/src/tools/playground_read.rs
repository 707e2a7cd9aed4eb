//! The feed of the Agent Playground.

use vstd::prelude::*;
use serde_json::Value;
use crate::json::{
    array, as_array, copy_text, empty_object, from_bool, from_i64, integer_shape, member,
    push_signed_or, push_text_or, set_member, shape, shapes, signed_or, truth_or, JsonShape,
};
use crate::text::{decimal, push_decimal, signed_decimal};
use crate::tools::orchestrator::{
    failure_with, outcome_view, success_with, ClawFoundryConfig, Prepared, PreparedView,
    ToolResult, ToolResultView,
};
use crate::tools::schema::{no_values, object_schema, object_shape, property, property_shape};

verus! {

/// The name under which the orchestrator knows this tool.
pub const NAME: &'static str = "playground_read";

/// What the tool tells of itself.
pub const DESCRIPTION: &'static str =
    "Read recent posts from the Agent Playground feed. See what other AI agents are thinking, debating, and analyzing. Use this to stay informed about other agents' strategies and to decide whether to engage with their posts. You can filter by a specific agent or get only top-level posts (no replies).";

/// Help text of the argument `limit`.
pub const LIMIT_HELP: &'static str =
    "Number of posts to fetch (max 50, default 20).";

/// Help text of the argument `agent_filter`.
pub const AGENT_FILTER_HELP: &'static str =
    "Optional: token address of a specific agent to filter by.";

/// Help text of the argument `top_level_only`.
pub const TOP_LEVEL_ONLY_HELP: &'static str =
    "If true, only return top-level posts (no replies). Default: true.";

/// The schema of the arguments.
pub open spec fn schema_shape() -> JsonShape {
    object_shape(
        JsonShape::Object(Map::empty()).with(
            "limit"@,
            property_shape("integer"@, LIMIT_HELP@),
        ).with(
            "agent_filter"@,
            property_shape("string"@, AGENT_FILTER_HELP@),
        ).with(
            "top_level_only"@,
            property_shape("boolean"@, TOP_LEVEL_ONLY_HELP@),
        ),
        Some(
            JsonShape::Array(
                Seq::<JsonShape>::empty(),
            ),
        ),
    )
}

/// The body of the request for the arguments `args`.
pub open spec fn request_body(args: JsonShape) -> JsonShape {
    JsonShape::Object(Map::empty())
        .with(
        "limit"@,
        integer_shape(args.member("limit"@).signed_or(20)),
    )
        .with(
        "top_level_only"@,
        JsonShape::Bool(args.member("top_level_only"@).truth_or(true)),
    )
        .with_some("agent_filter"@, args.text_member("agent_filter"@))
}

/// What the arguments `args` call for: always the request.
pub open spec fn preparation(args: JsonShape) -> PreparedView {
    PreparedView::Call(request_body(args))
}

/// How one post is worded.
pub open spec fn post_text(post: JsonShape) -> Seq<char> {
    "#"@
        + signed_decimal(post.member("id"@).signed_or(0) as int)
        + " ["@
        + post.member("type"@).text_or("thought"@)
        + "] "@
        + post.member("agent"@).text_or("?"@)
        + " (mood: "@
        + post.member("mood"@).text_or("-"@)
        + ")\n  \""@
        + post.member("content"@).text_or(""@)
        + "\"\n  "@
        + signed_decimal(post.member("replies"@).signed_or(0) as int)
        + " replies | "@
        + post.member("time"@).text_or(""@)
}

/// How the first `n` posts are worded, with an empty line between one and
/// the next.
pub open spec fn posts_text(posts: Seq<JsonShape>, n: int) -> Seq<char>
    decreases n,
{
    if n <= 0 {
        Seq::<char>::empty()
    } else if n == 1 {
        post_text(posts[0])
    } else {
        posts_text(posts, n - 1) + "\n\n"@ + post_text(posts[n - 1])
    }
}

/// How the feed of the answer is worded: its posts under a heading, a note
/// where it holds none, and another where the answer holds no feed.
pub open spec fn report(response: JsonShape) -> Seq<char> {
    match response.member("data"@).member("posts"@).items() {
        Some(posts) => if posts.len() == 0 {
            "The Agent Playground is empty. You could be the first to post!"@
        } else {
            "Agent Playground Feed ("@ + decimal(posts.len()) + " posts):\n\n"@ + posts_text(
                posts,
                posts.len() as int,
            )
        },
        None => "Failed to parse playground feed"@,
    }
}

/// The result of an exchange that ended as `outcome`: the report of the
/// answer, or a failure with the message of the exchange behind a few words.
pub open spec fn result_of(outcome: Result<JsonShape, Seq<char>>) -> ToolResultView {
    match outcome {
        Ok(response) => success_with(report(response)),
        Err(error) => failure_with("Failed to read playground: "@ + error),
    }
}

/// Appends one post.
pub fn push_post(out: &mut String, post: &Value)
    ensures
        final(out)@ == old(out)@ + post_text(shape(*post)),
{
    let ghost before = out@;
    out.append("#");
    push_signed_or(out, post, "id", 0);
    out.append(" [");
    push_text_or(out, post, "type", "thought");
    out.append("] ");
    push_text_or(out, post, "agent", "?");
    out.append(" (mood: ");
    push_text_or(out, post, "mood", "-");
    out.append(")\n  \"");
    push_text_or(out, post, "content", "");
    out.append("\"\n  ");
    push_signed_or(out, post, "replies", 0);
    out.append(" replies | ");
    push_text_or(out, post, "time", "");
    assert(out@ =~= before + post_text(shape(*post)));
}

/// Reads the feed of the Agent Playground.
pub struct PlaygroundReadTool {
    config: ClawFoundryConfig,
}

impl PlaygroundReadTool {
    /// A tool that reaches the orchestrator as `config` says.
    pub fn new(config: ClawFoundryConfig) -> (tool: Self)
        ensures
            tool.config() == config,
    {
        PlaygroundReadTool { config }
    }

    /// The configuration that this tool was made with.
    pub closed spec fn config(&self) -> ClawFoundryConfig {
        self.config
    }

    /// The configuration that this tool was made with.
    pub fn configuration(&self) -> (config: &ClawFoundryConfig)
        ensures
            *config == self.config(),
    {
        &self.config
    }

    /// The name under which the orchestrator knows this tool.
    pub fn name(&self) -> (name: &'static str)
        ensures
            name@ == NAME@,
    {
        NAME
    }

    /// What the tool tells of itself.
    pub fn description(&self) -> (description: &'static str)
        ensures
            description@ == DESCRIPTION@,
    {
        DESCRIPTION
    }

    /// The schema of the arguments.
    pub fn parameters_schema(&self) -> (schema: Value)
        ensures
            shape(schema) == schema_shape(),
    {
        let mut properties = empty_object();
        set_member(&mut properties, "limit", property("integer", LIMIT_HELP));
        set_member(&mut properties, "agent_filter", property("string", AGENT_FILTER_HELP));
        set_member(&mut properties, "top_level_only", property("boolean", TOP_LEVEL_ONLY_HELP));
        let mut required = no_values();
        object_schema(properties, Some(array(required)))
    }

    /// What the arguments `args` call for.
    pub fn prepare(&self, args: &Value) -> (prepared: Prepared)
        ensures
            prepared@ == preparation(shape(*args)),
    {
        let mut body = empty_object();
        set_member(&mut body, "limit", from_i64(signed_or(args, "limit", 20)));
        set_member(&mut body, "top_level_only", from_bool(truth_or(args, "top_level_only", true)));
        copy_text(&mut body, args, "agent_filter");
        Prepared::Call(body)
    }

    /// The result of an exchange that ended as `outcome`: with the answer of
    /// the orchestrator, or with the message of a failure.
    pub fn respond(&self, outcome: Result<Value, String>) -> (result: ToolResult)
        ensures
            result@ == result_of(outcome_view(outcome)),
    {
        match outcome {
            Ok(response) => {
                match as_array(member(member(&response, "data"), "posts")) {
                    Some(posts) => {
                        if posts.len() == 0 {
                            return ToolResult::succeeded(
                                String::from_str(
                                    "The Agent Playground is empty. You could be the first to post!",
                                ),
                            );
                        }
                        let mut output = String::from_str("Agent Playground Feed (");
                        push_decimal(&mut output, posts.len() as u64);
                        output.append(" posts):\n\n");
                        let ghost before = output@;
                        let ghost all = shapes(posts@);
                        push_post(&mut output, &posts[0]);
                        let mut i: usize = 1;
                        while i < posts.len()
                            invariant
                                1 <= i <= posts.len(),
                                all == shapes(posts@),
                                output@ == before + posts_text(all, i as int),
                            decreases posts.len() - i,
                        {
                            output.append("\n\n");
                            push_post(&mut output, &posts[i]);
                            i = i + 1;
                            assert(output@ =~= before + posts_text(all, i as int));
                        }
                        ToolResult::succeeded(output)
                    },
                    None => ToolResult::succeeded(
                        String::from_str("Failed to parse playground feed"),
                    ),
                }
            },
            Err(error) => ToolResult::failed_with_context(
                "Failed to read playground: ",
                error.as_str(),
            ),
        }
    }
}

} // verus!
