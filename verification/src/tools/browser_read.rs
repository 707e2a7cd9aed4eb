//! The text of a web page.

use vstd::prelude::*;
use serde_json::Value;
use crate::json::{
    array, as_array, copy_text, copy_unsigned, empty_object, member, push_text_or,
    push_unsigned_or, set_member, shape, shapes, text_at, text_or, JsonShape,
};
use crate::text::{decimal};
use crate::tools::orchestrator::{
    failure_with, outcome_view, success_with, ClawFoundryConfig, Prepared, PreparedView,
    ToolResult, ToolResultView,
};
use crate::tools::schema::{
    no_values, object_schema, object_shape, property, property_shape, push_text,
};

verus! {

/// The name under which the orchestrator knows this tool.
pub const NAME: &'static str = "browser_read";

/// What the tool tells of itself.
pub const DESCRIPTION: &'static str =
    "Navigate to a URL and extract the text content of the page using the shared browser pool. Much cheaper than browser_screenshot — no vision LLM cost. Use for reading articles, documentation, forums, announcements, API responses, or any page where you need the text rather than a visual analysis. Returns page title, cleaned text, and up to 20 links.";

/// Help text of the argument `url`.
pub const URL_HELP: &'static str =
    "The URL to navigate to and extract text from.";

/// Help text of the argument `wait_ms`.
pub const WAIT_MS_HELP: &'static str =
    "Milliseconds to wait after page load before extracting. Default: 2000.";

/// Help text of the argument `max_length`.
pub const MAX_LENGTH_HELP: &'static str =
    "Maximum characters of text to return. Default: 50000.";

/// The schema of the arguments.
pub open spec fn schema_shape() -> JsonShape {
    object_shape(
        JsonShape::Object(Map::empty()).with(
            "url"@,
            property_shape("string"@, URL_HELP@),
        ).with(
            "wait_ms"@,
            property_shape("number"@, WAIT_MS_HELP@),
        ).with(
            "max_length"@,
            property_shape("number"@, MAX_LENGTH_HELP@),
        ),
        Some(
            JsonShape::Array(
                Seq::<JsonShape>::empty()
                    .push(JsonShape::String("url"@)),
            ),
        ),
    )
}

/// The body of the request for the arguments `args`.
pub open spec fn request_body(args: JsonShape) -> JsonShape {
    JsonShape::Object(Map::empty())
        .with_some("url"@, args.text_member("url"@))
        .with_some("wait_ms"@, args.unsigned_member("wait_ms"@))
        .with_some("max_length"@, args.unsigned_member("max_length"@))
}

/// What the arguments `args` call for: the request, or a rejection that names
/// the first required argument that is missing.
pub open spec fn preparation(args: JsonShape) -> PreparedView {
    if args.member("url"@).text() is None {
        PreparedView::Reject("url is required"@)
    } else {
        PreparedView::Call(request_body(args))
    }
}

/// The most links that a report lists.
pub const MAX_LINKS: usize = 20;

/// The line of one link; none for a link without an address.
pub open spec fn link_line(link: JsonShape) -> Seq<char> {
    if link.member("href"@).text_or(""@).len() == 0 {
        Seq::<char>::empty()
    } else {
        "- ["@ + link.member("text"@).text_or(""@) + "]("@ + link.member("href"@).text_or(""@)
            + ")\n"@
    }
}

/// The lines of the first `n` links.
pub open spec fn link_lines(links: Seq<JsonShape>, n: int) -> Seq<char>
    decreases n,
{
    if n <= 0 {
        Seq::<char>::empty()
    } else {
        link_lines(links, n - 1) + link_line(links[n - 1])
    }
}

/// The section that lists the links of a page: a heading and the lines of
/// the first links, at most [`MAX_LINKS`] of them; nothing where the
/// answer holds no list of links, or an empty one.
pub open spec fn links_section(links: JsonShape) -> Seq<char> {
    match links.items() {
        Some(list) => if list.len() == 0 {
            Seq::<char>::empty()
        } else {
            "\n\n--- Links ---\n"@ + link_lines(
                list,
                if list.len() < MAX_LINKS {
                    list.len() as int
                } else {
                    MAX_LINKS as int
                },
            )
        },
        None => Seq::<char>::empty(),
    }
}

/// How a page is worded.
pub open spec fn report(args: JsonShape, response: JsonShape) -> Seq<char> {
    "Page: "@
        + response.member("title"@).text_or("(untitled)"@)
        + "\nURL: "@
        + response.member("url"@).text_or(args.member("url"@).text_or(""@))
        + "\nText length: "@
        + decimal(response.member("text_length"@).unsigned_or(0) as nat)
        + " chars\n\n"@
        + response.member("text_content"@).text_or(""@)
        + links_section(response.member("links"@))
}

/// The result of an exchange that ended as `outcome`: the report of the
/// answer, or a failure with the message of the exchange.
pub open spec fn result_of(args: JsonShape, outcome: Result<JsonShape, Seq<char>>) -> ToolResultView {
    match outcome {
        Ok(response) => success_with(report(args, response)),
        Err(error) => failure_with(error),
    }
}

/// Appends the section that lists the links of a page.
pub fn push_links(out: &mut String, links: &Value)
    ensures
        final(out)@ == old(out)@ + links_section(shape(*links)),
{
    match as_array(links) {
        Some(list) => {
            if list.len() > 0 {
                out.append("\n\n--- Links ---\n");
                let ghost before = out@;
                let ghost all = shapes(list@);
                let limit = if list.len() < MAX_LINKS {
                    list.len()
                } else {
                    MAX_LINKS
                };
                let mut i: usize = 0;
                assert(out@ =~= before + link_lines(all, 0));
                while i < limit
                    invariant
                        i <= limit <= list.len(),
                        all == shapes(list@),
                        out@ == before + link_lines(all, i as int),
                    decreases limit - i,
                {
                    let link = &list[i];
                    let href = text_or(link, "href", "");
                    if !href.is_empty() {
                        out.append("- [");
                        push_text_or(out, link, "text", "");
                        out.append("](");
                        out.append(href);
                        out.append(")\n");
                    }
                    i = i + 1;
                    assert(out@ =~= before + link_lines(all, i as int));
                }
                assert(final(out)@ =~= old(out)@ + links_section(shape(*links)));
            } else {
                assert(final(out)@ =~= old(out)@ + links_section(shape(*links)));
            }
        },
        None => {
            assert(final(out)@ =~= old(out)@ + links_section(shape(*links)));
        },
    }
}

/// Reads the text of a web page through the shared browser.
pub struct BrowserReadTool {
    config: ClawFoundryConfig,
}

impl BrowserReadTool {
    /// A tool that reaches the orchestrator as `config` says.
    pub fn new(config: ClawFoundryConfig) -> (tool: Self)
        ensures
            tool.config() == config,
    {
        BrowserReadTool { config }
    }

    /// The configuration that this tool was made with.
    pub closed spec fn config(&self) -> ClawFoundryConfig {
        self.config
    }

    /// The configuration that this tool was made with.
    pub fn configuration(&self) -> (config: &ClawFoundryConfig)
        ensures
            *config == self.config(),
    {
        &self.config
    }

    /// The name under which the orchestrator knows this tool.
    pub fn name(&self) -> (name: &'static str)
        ensures
            name@ == NAME@,
    {
        NAME
    }

    /// What the tool tells of itself.
    pub fn description(&self) -> (description: &'static str)
        ensures
            description@ == DESCRIPTION@,
    {
        DESCRIPTION
    }

    /// The schema of the arguments.
    pub fn parameters_schema(&self) -> (schema: Value)
        ensures
            shape(schema) == schema_shape(),
    {
        let mut properties = empty_object();
        set_member(&mut properties, "url", property("string", URL_HELP));
        set_member(&mut properties, "wait_ms", property("number", WAIT_MS_HELP));
        set_member(&mut properties, "max_length", property("number", MAX_LENGTH_HELP));
        let mut required = no_values();
        push_text(&mut required, "url");
        object_schema(properties, Some(array(required)))
    }

    /// What the arguments `args` call for.
    pub fn prepare(&self, args: &Value) -> (prepared: Prepared)
        ensures
            prepared@ == preparation(shape(*args)),
    {
        if text_at(args, "url").is_none() {
            return Prepared::Reject(String::from_str("url is required"));
        }
        let mut body = empty_object();
        copy_text(&mut body, args, "url");
        copy_unsigned(&mut body, args, "wait_ms");
        copy_unsigned(&mut body, args, "max_length");
        Prepared::Call(body)
    }

    /// The result of an exchange that ended as `outcome`: with the answer of
    /// the orchestrator, or with the message of a failure.
    pub fn respond(&self, args: &Value, outcome: Result<Value, String>) -> (result: ToolResult)
        ensures
            result@ == result_of(shape(*args), outcome_view(outcome)),
    {
        match outcome {
            Ok(response) => {
                let mut output = String::from_str("Page: ");
                push_text_or(&mut output, &response, "title", "(untitled)");
                output.append("\nURL: ");
                push_text_or(&mut output, &response, "url", text_or(args, "url", ""));
                output.append("\nText length: ");
                push_unsigned_or(&mut output, &response, "text_length", 0);
                output.append(" chars\n\n");
                push_text_or(&mut output, &response, "text_content", "");
                push_links(&mut output, member(&response, "links"));
                ToolResult::succeeded(output)
            },
            Err(error) => ToolResult::failed(error),
        }
    }
}

} // verus!
