//! A screenshot of a web page, with or without an analysis of what it shows.

use vstd::prelude::*;
use serde_json::Value;
use crate::json::{
    array, as_str, copy_text, copy_unsigned, empty_object, member, push_text_or, set_member,
    shape, text_at, text_or, truth_or, unsigned_or, JsonShape,
};
use crate::text::{decimal, push_decimal};
use crate::tools::orchestrator::{
    failure_with, outcome_view, success_with, ClawFoundryConfig, Prepared, PreparedView,
    ToolResult, ToolResultView,
};
use crate::tools::schema::{
    no_values, object_schema, object_shape, property, property_shape, push_text,
};

verus! {

/// The name under which the orchestrator knows this tool.
pub const NAME: &'static str = "browser_screenshot";

/// What the tool tells of itself.
pub const DESCRIPTION: &'static str =
    "Take a screenshot of a URL using the shared browser pool, then analyze it visually with a multi-modal LLM. Perfect for: DexScreener charts, Twitter/X feeds, protocol dashboards, whale tracker pages. Provide an analysis_prompt to describe what to focus on (e.g., 'Analyze this DexScreener chart for bullish/bearish signals'). If no analysis_prompt is given, returns the raw screenshot without vision analysis. NOTE: Vision analysis uses LLM credits â€” omit analysis_prompt for cheaper screenshot-only.";

/// Help text of the argument `url`.
pub const URL_HELP: &'static str =
    "The URL to screenshot and analyze.";

/// Help text of the argument `analysis_prompt`.
pub const ANALYSIS_PROMPT_HELP: &'static str =
    "What to focus on when analyzing the screenshot. E.g., 'Analyze this DexScreener chart for bullish/bearish signals' or 'Summarize the sentiment of these tweets about $TOKEN'. Omit for raw screenshot without vision analysis.";

/// Help text of the argument `wait_ms`.
pub const WAIT_MS_HELP: &'static str =
    "Milliseconds to wait after page load before screenshot. Default: 3000.";

/// The schema of the arguments.
pub open spec fn schema_shape() -> JsonShape {
    object_shape(
        JsonShape::Object(Map::empty()).with(
            "url"@,
            property_shape("string"@, URL_HELP@),
        ).with(
            "analysis_prompt"@,
            property_shape("string"@, ANALYSIS_PROMPT_HELP@),
        ).with(
            "wait_ms"@,
            property_shape("number"@, WAIT_MS_HELP@),
        ),
        Some(
            JsonShape::Array(
                Seq::<JsonShape>::empty()
                    .push(JsonShape::String("url"@)),
            ),
        ),
    )
}

/// The body of the request for the arguments `args`.
pub open spec fn request_body(args: JsonShape) -> JsonShape {
    JsonShape::Object(Map::empty())
        .with_some("url"@, args.text_member("url"@))
        .with_some("analysis_prompt"@, args.text_member("analysis_prompt"@))
        .with_some("wait_ms"@, args.unsigned_member("wait_ms"@))
}

/// What the arguments `args` call for: the request, or a rejection that names
/// the first required argument that is missing.
pub open spec fn preparation(args: JsonShape) -> PreparedView {
    if args.member("url"@).text() is None {
        PreparedView::Reject("url is required"@)
    } else {
        PreparedView::Call(request_body(args))
    }
}

/// What is said of the analysis: the analysis where the answer holds one,
/// and a note that none was asked for otherwise.
pub open spec fn analysis_note(analysis: JsonShape) -> Seq<char> {
    match analysis.text() {
        Some(text) => "\n\nðŸ“Š Analysis:\n"@ + text,
        None => "\n\nNo vision analysis requested (omit analysis_prompt to skip)."@,
    }
}

/// How a screenshot is worded. The size is given in whole kilobytes.
pub open spec fn report(args: JsonShape, response: JsonShape) -> Seq<char> {
    "Screenshot captured!\nURL: "@
        + response.member("url"@).text_or(args.member("url"@).text_or(""@))
        + "\nTitle: "@
        + response.member("title"@).text_or("unknown"@)
        + "\nSize: "@
        + decimal((response.member("size_bytes"@).unsigned_or(0) / 1024) as nat)
        + " KB"@
        + analysis_note(response.member("analysis"@))
}

/// The result of an exchange that ended as `outcome`: the report where the
/// answer tells of success, a failure with the orchestrator's reason where
/// it does not, and a failure with the message of the exchange where there
/// is no answer.
pub open spec fn result_of(args: JsonShape, outcome: Result<JsonShape, Seq<char>>) -> ToolResultView {
    match outcome {
        Ok(response) => if response.member("success"@).truth_or(false) {
            success_with(report(args, response))
        } else {
            failure_with(response.member("error"@).text_or("Screenshot failed"@))
        },
        Err(error) => failure_with(error),
    }
}

/// Takes a screenshot of a web page through the shared browser.
pub struct BrowserScreenshotTool {
    config: ClawFoundryConfig,
}

impl BrowserScreenshotTool {
    /// A tool that reaches the orchestrator as `config` says.
    pub fn new(config: ClawFoundryConfig) -> (tool: Self)
        ensures
            tool.config() == config,
    {
        BrowserScreenshotTool { config }
    }

    /// The configuration that this tool was made with.
    pub closed spec fn config(&self) -> ClawFoundryConfig {
        self.config
    }

    /// The configuration that this tool was made with.
    pub fn configuration(&self) -> (config: &ClawFoundryConfig)
        ensures
            *config == self.config(),
    {
        &self.config
    }

    /// The name under which the orchestrator knows this tool.
    pub fn name(&self) -> (name: &'static str)
        ensures
            name@ == NAME@,
    {
        NAME
    }

    /// What the tool tells of itself.
    pub fn description(&self) -> (description: &'static str)
        ensures
            description@ == DESCRIPTION@,
    {
        DESCRIPTION
    }

    /// The schema of the arguments.
    pub fn parameters_schema(&self) -> (schema: Value)
        ensures
            shape(schema) == schema_shape(),
    {
        let mut properties = empty_object();
        set_member(&mut properties, "url", property("string", URL_HELP));
        set_member(&mut properties, "analysis_prompt", property("string", ANALYSIS_PROMPT_HELP));
        set_member(&mut properties, "wait_ms", property("number", WAIT_MS_HELP));
        let mut required = no_values();
        push_text(&mut required, "url");
        object_schema(properties, Some(array(required)))
    }

    /// What the arguments `args` call for.
    pub fn prepare(&self, args: &Value) -> (prepared: Prepared)
        ensures
            prepared@ == preparation(shape(*args)),
    {
        if text_at(args, "url").is_none() {
            return Prepared::Reject(String::from_str("url is required"));
        }
        let mut body = empty_object();
        copy_text(&mut body, args, "url");
        copy_text(&mut body, args, "analysis_prompt");
        copy_unsigned(&mut body, args, "wait_ms");
        Prepared::Call(body)
    }

    /// The result of an exchange that ended as `outcome`: with the answer of
    /// the orchestrator, or with the message of a failure.
    pub fn respond(&self, args: &Value, outcome: Result<Value, String>) -> (result: ToolResult)
        ensures
            result@ == result_of(shape(*args), outcome_view(outcome)),
    {
        match outcome {
            Ok(response) => {
                if !truth_or(&response, "success", false) {
                    return ToolResult::failed(
                        String::from_str(text_or(&response, "error", "Screenshot failed")),
                    );
                }
                let mut output = String::from_str("Screenshot captured!\nURL: ");
                push_text_or(&mut output, &response, "url", text_or(args, "url", ""));
                output.append("\nTitle: ");
                push_text_or(&mut output, &response, "title", "unknown");
                output.append("\nSize: ");
                push_decimal(&mut output, unsigned_or(&response, "size_bytes", 0) / 1024);
                output.append(" KB");
                match as_str(member(&response, "analysis")) {
                    Some(text) => {
                        output.append("\n\nðŸ“Š Analysis:\n");
                        output.append(text);
                    },
                    None => {
                        output.append(
                            "\n\nNo vision analysis requested (omit analysis_prompt to skip).",
                        );
                    },
                }
                assert(output@ =~= report(shape(*args), shape(response)));
                ToolResult::succeeded(output)
            },
            Err(error) => ToolResult::failed(error),
        }
    }
}

} // verus!
