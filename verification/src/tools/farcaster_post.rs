//! A cast on Farcaster.

use vstd::prelude::*;
use serde_json::Value;
use crate::json::{
    array, copy_text, empty_object, member, push_text_or, set_member, shape, text_at, JsonShape,
};
use crate::tools::orchestrator::{
    failure_with, outcome_view, success_with, ClawFoundryConfig, Prepared, PreparedView,
    ToolResult, ToolResultView,
};
use crate::tools::schema::{
    no_values, object_schema, object_shape, property, property_shape, push_text,
};

verus! {

/// The name under which the orchestrator knows this tool.
pub const NAME: &'static str = "farcaster_post";

/// What the tool tells of itself.
pub const DESCRIPTION: &'static str =
    "Post a cast (message) to Farcaster, a decentralized social network. Use this to share your market analysis, survival updates, trade insights, and thoughts with the wider crypto community. Farcaster posts are public and permanent. You can post to specific channels or reply to existing casts. Max 320 characters.";

/// Help text of the argument `text`.
pub const TEXT_HELP: &'static str =
    "The cast content (max 320 chars). Be concise, insightful, and authentic.";

/// Help text of the argument `channel_id`.
pub const CHANNEL_ID_HELP: &'static str =
    "Optional Farcaster channel to post in (e.g. 'base', 'defi', 'trading').";

/// Help text of the argument `parent_hash`.
pub const PARENT_HASH_HELP: &'static str =
    "Optional cast hash to reply to. Omit to create a new top-level cast.";

/// The schema of the arguments.
pub open spec fn schema_shape() -> JsonShape {
    object_shape(
        JsonShape::Object(Map::empty()).with(
            "text"@,
            property_shape("string"@, TEXT_HELP@),
        ).with(
            "channel_id"@,
            property_shape("string"@, CHANNEL_ID_HELP@),
        ).with(
            "parent_hash"@,
            property_shape("string"@, PARENT_HASH_HELP@),
        ),
        Some(
            JsonShape::Array(
                Seq::<JsonShape>::empty()
                    .push(JsonShape::String("text"@)),
            ),
        ),
    )
}

/// The body of the request for the arguments `args`.
pub open spec fn request_body(args: JsonShape) -> JsonShape {
    JsonShape::Object(Map::empty())
        .with_some("text"@, args.text_member("text"@))
        .with_some("channel_id"@, args.text_member("channel_id"@))
        .with_some("parent_hash"@, args.text_member("parent_hash"@))
}

/// What the arguments `args` call for: the request, or a rejection that names
/// the first required argument that is missing.
pub open spec fn preparation(args: JsonShape) -> PreparedView {
    if args.member("text"@).text() is None {
        PreparedView::Reject("text is required"@)
    } else {
        PreparedView::Call(request_body(args))
    }
}

/// How a published cast is worded.
pub open spec fn report(response: JsonShape) -> Seq<char> {
    "Cast published to Farcaster! Hash: "@
        + response.member("data"@).member("castHash"@).text_or("unknown"@)
        + ". Your thoughts are now visible to the Farcaster community."@
}

/// The result of an exchange that ended as `outcome`: the report of the
/// answer, or a failure with the message of the exchange behind a few words.
pub open spec fn result_of(outcome: Result<JsonShape, Seq<char>>) -> ToolResultView {
    match outcome {
        Ok(response) => success_with(report(response)),
        Err(error) => failure_with("Failed to post to Farcaster: "@ + error),
    }
}

/// Posts a cast to Farcaster.
pub struct FarcasterPostTool {
    config: ClawFoundryConfig,
}

impl FarcasterPostTool {
    /// A tool that reaches the orchestrator as `config` says.
    pub fn new(config: ClawFoundryConfig) -> (tool: Self)
        ensures
            tool.config() == config,
    {
        FarcasterPostTool { config }
    }

    /// The configuration that this tool was made with.
    pub closed spec fn config(&self) -> ClawFoundryConfig {
        self.config
    }

    /// The configuration that this tool was made with.
    pub fn configuration(&self) -> (config: &ClawFoundryConfig)
        ensures
            *config == self.config(),
    {
        &self.config
    }

    /// The name under which the orchestrator knows this tool.
    pub fn name(&self) -> (name: &'static str)
        ensures
            name@ == NAME@,
    {
        NAME
    }

    /// What the tool tells of itself.
    pub fn description(&self) -> (description: &'static str)
        ensures
            description@ == DESCRIPTION@,
    {
        DESCRIPTION
    }

    /// The schema of the arguments.
    pub fn parameters_schema(&self) -> (schema: Value)
        ensures
            shape(schema) == schema_shape(),
    {
        let mut properties = empty_object();
        set_member(&mut properties, "text", property("string", TEXT_HELP));
        set_member(&mut properties, "channel_id", property("string", CHANNEL_ID_HELP));
        set_member(&mut properties, "parent_hash", property("string", PARENT_HASH_HELP));
        let mut required = no_values();
        push_text(&mut required, "text");
        object_schema(properties, Some(array(required)))
    }

    /// What the arguments `args` call for.
    pub fn prepare(&self, args: &Value) -> (prepared: Prepared)
        ensures
            prepared@ == preparation(shape(*args)),
    {
        if text_at(args, "text").is_none() {
            return Prepared::Reject(String::from_str("text is required"));
        }
        let mut body = empty_object();
        copy_text(&mut body, args, "text");
        copy_text(&mut body, args, "channel_id");
        copy_text(&mut body, args, "parent_hash");
        Prepared::Call(body)
    }

    /// The result of an exchange that ended as `outcome`: with the answer of
    /// the orchestrator, or with the message of a failure.
    pub fn respond(&self, outcome: Result<Value, String>) -> (result: ToolResult)
        ensures
            result@ == result_of(outcome_view(outcome)),
    {
        match outcome {
            Ok(response) => {
                let data = member(&response, "data");
                let mut output = String::from_str("Cast published to Farcaster! Hash: ");
                push_text_or(&mut output, data, "castHash", "unknown");
                output.append(". Your thoughts are now visible to the Farcaster community.");
                ToolResult::succeeded(output)
            },
            Err(error) => ToolResult::failed_with_context("Failed to post to Farcaster: ", error.as_str()),
        }
    }
}

} // verus!
