//! Intel that the community submitted: what is pending, and a verdict on one item.

use vstd::prelude::*;
use serde_json::Value;
use crate::json::{
    array, as_array, as_i64, copy_signed, copy_text, empty_object, from_i64, from_text,
    integer_shape, member, push_signed_or, push_text_or, set_member, shape, shapes, signed_or,
    text_at, text_or, text_or_null, JsonShape,
};
use crate::text::{
    decimal, first_chars, leading, push_decimal, push_signed_decimal, same_text, signed_decimal,
};
use crate::tools::orchestrator::{
    failure_with, outcome_view, success_with, ClawFoundryConfig, Prepared, PreparedView,
    ToolResult, ToolResultView,
};
use crate::tools::schema::{
    choice, choice_shape, no_values, object_schema, object_shape, property, property_shape,
    push_text,
};

verus! {

/// The name under which the orchestrator knows this tool.
pub const NAME: &'static str = "review_intel";

/// What the tool tells of itself.
pub const DESCRIPTION: &'static str =
    "Review community-submitted intel (alpha tips, strategy proposals, risk alerts). Use action='fetch' to get pending intel entries ranked by community votes. Use action='review' with an intelId and decision to accept, reject, or investigate. Accepting good intel rewards the submitter's reputation in your BrainTrust. Call this periodically to engage with your community and act on their best ideas.";

/// Help text of the argument `action`.
pub const ACTION_HELP: &'static str =
    "Action to perform. 'fetch' retrieves pending intel, 'review' processes a specific item.";

/// Help text of the argument `limit`.
pub const LIMIT_HELP: &'static str =
    "Max number of pending intel items to retrieve (for action='fetch'). Default: 5.";

/// Help text of the argument `intelId`.
pub const INTEL_ID_HELP: &'static str =
    "ID of the intel item to review (required for action='review').";

/// Help text of the argument `decision`.
pub const DECISION_HELP: &'static str =
    "Your decision on the intel (required for action='review'). 'accepted' boosts submitter reputation.";

/// Help text of the argument `reviewNote`.
pub const REVIEW_NOTE_HELP: &'static str =
    "Your reasoning for the decision. Visible to the submitter and community.";

/// The schema of the arguments.
pub open spec fn schema_shape() -> JsonShape {
    object_shape(
        JsonShape::Object(Map::empty()).with(
            "action"@,
            choice_shape(
                JsonShape::Array(
                    Seq::<JsonShape>::empty()
                        .push(JsonShape::String("fetch"@))
                        .push(JsonShape::String("review"@)),
                ),
                ACTION_HELP@,
            ),
        ).with(
            "limit"@,
            property_shape("integer"@, LIMIT_HELP@),
        ).with(
            "intelId"@,
            property_shape("integer"@, INTEL_ID_HELP@),
        ).with(
            "decision"@,
            choice_shape(
                JsonShape::Array(
                    Seq::<JsonShape>::empty()
                        .push(JsonShape::String("accepted"@))
                        .push(JsonShape::String("rejected"@))
                        .push(JsonShape::String("investigating"@)),
                ),
                DECISION_HELP@,
            ),
        ).with(
            "reviewNote"@,
            property_shape("string"@, REVIEW_NOTE_HELP@),
        ),
        Some(
            JsonShape::Array(
                Seq::<JsonShape>::empty()
                    .push(JsonShape::String("action"@)),
            ),
        ),
    )
}

/// The body of a request to fetch pending intel.
pub open spec fn fetch_body(args: JsonShape) -> JsonShape {
    JsonShape::Object(Map::empty())
        .with("action"@, JsonShape::String("fetch"@))
        .with("limit"@, integer_shape(args.member("limit"@).signed_or(5)))
}

/// The body of a request to review one item.
pub open spec fn review_body(args: JsonShape) -> JsonShape {
    JsonShape::Object(Map::empty())
        .with("action"@, JsonShape::String("review"@))
        .with_some("intelId"@, args.signed_member("intelId"@))
        .with_some("decision"@, args.text_member("decision"@))
        .with(
        "reviewNote"@,
        match args.member("reviewNote"@).text() {
            Some(note) => JsonShape::String(note),
            None => JsonShape::Null,
        },
    )
}

/// What the arguments `args` call for: a request to fetch or to review; a
/// rejection where a review lacks its item or its decision; and a failure
/// at once for any other action.
pub open spec fn preparation(args: JsonShape) -> PreparedView {
    if action_of(args) == "fetch"@ {
        PreparedView::Call(fetch_body(args))
    } else if action_of(args) == "review"@ {
        if args.member("intelId"@).signed() is None {
            PreparedView::Reject("intelId is required for action='review'"@)
        } else if args.member("decision"@).text() is None {
            PreparedView::Reject("decision is required for action='review'"@)
        } else {
            PreparedView::Call(review_body(args))
        }
    } else {
        PreparedView::Answer(
            failure_with("Invalid action '"@ + action_of(args) + "'. Use 'fetch' or 'review'."@),
        )
    }
}

/// The most characters of an item's content that a report shows.
pub const CONTENT_SHOWN: usize = 300;

/// The action that the arguments name; to fetch where they name none.
pub open spec fn action_of(args: JsonShape) -> Seq<char> {
    args.member("action"@).text_or("fetch"@)
}

/// How item `number` of the pending intel is worded. Of its content the
/// first [`CONTENT_SHOWN`] characters are shown.
pub open spec fn item_text(number: nat, item: JsonShape) -> Seq<char> {
    "#"@
        + decimal(number)
        + " [ID: "@
        + signed_decimal(item.member("id"@).signed_or(0) as int)
        + "] ("@
        + item.member("category"@).text_or("general"@)
        + ") \""@
        + item.member("title"@).text_or("Untitled"@)
        + "\"\n   Score: "@
        + signed_decimal(item.member("score"@).signed_or(0) as int)
        + " | Tier: "@
        + signed_decimal(item.member("submitterTier"@).signed_or(0) as int)
        + " | Rep: "@
        + signed_decimal(item.member("submitterReputation"@).signed_or(0) as int)
        + " | By: "@
        + item.member("submitter"@).text_or("unknown"@)
        + "\n   "@
        + leading(item.member("content"@).text_or(""@), CONTENT_SHOWN as nat)
}

/// How the first `n` items are worded, numbered from one, with an empty
/// line between one and the next.
pub open spec fn items_text(items: Seq<JsonShape>, n: int) -> Seq<char>
    decreases n,
{
    if n <= 0 {
        Seq::<char>::empty()
    } else if n == 1 {
        item_text(1, items[0])
    } else {
        items_text(items, n - 1) + "\n\n"@ + item_text(n as nat, items[n - 1])
    }
}

/// How the list of pending intel is worded; empty where the answer holds
/// no list.
pub open spec fn list_text(items: JsonShape) -> Seq<char> {
    match items.items() {
        Some(list) => items_text(list, list.len() as int),
        None => Seq::<char>::empty(),
    }
}

/// How the answer to a fetch is worded: the pending items with their count
/// and an instruction, or a note where nothing is pending.
pub open spec fn fetch_report(response: JsonShape) -> Seq<char> {
    let data = response.member("data"@);
    if data.member("pendingCount"@).signed_or(0) == 0 {
        "No pending intel to review. Your community hasn't submitted any new intel yet."@
    } else {
        "📥 "@ + signed_decimal(data.member("pendingCount"@).signed_or(0) as int)
            + " pending intel items:\n\n"@ + list_text(data.member("items"@)) + "\n\n💡 "@
            + data.member("instruction"@).text_or("Review each item using action='review'."@)
    }
}

/// How the answer to a review is worded.
pub open spec fn review_report(response: JsonShape) -> Seq<char> {
    "✅ "@ + response.member("data"@).member("message"@).text_or("Review processed."@)
}

/// The result of an exchange that ended as `outcome`: the report of the
/// answer, as the action of the arguments calls for, or a failure with the
/// message of the exchange behind a few words.
pub open spec fn result_of(args: JsonShape, outcome: Result<JsonShape, Seq<char>>) -> ToolResultView {
    match outcome {
        Ok(response) => if action_of(args) == "fetch"@ {
            success_with(fetch_report(response))
        } else {
            success_with(review_report(response))
        },
        Err(error) => failure_with("Failed to review intel: "@ + error),
    }
}

/// Appends item `number` of the pending intel.
pub fn push_item(out: &mut String, number: u64, item: &Value)
    ensures
        final(out)@ == old(out)@ + item_text(number as nat, shape(*item)),
{
    let ghost before = out@;
    out.append("#");
    push_decimal(out, number);
    out.append(" [ID: ");
    push_signed_or(out, item, "id", 0);
    out.append("] (");
    push_text_or(out, item, "category", "general");
    out.append(") \"");
    push_text_or(out, item, "title", "Untitled");
    out.append("\"\n   Score: ");
    push_signed_or(out, item, "score", 0);
    out.append(" | Tier: ");
    push_signed_or(out, item, "submitterTier", 0);
    out.append(" | Rep: ");
    push_signed_or(out, item, "submitterReputation", 0);
    out.append(" | By: ");
    push_text_or(out, item, "submitter", "unknown");
    out.append("\n   ");
    out.append(first_chars(text_or(item, "content", ""), CONTENT_SHOWN));
    assert(out@ =~= before + item_text(number as nat, shape(*item)));
}

/// Appends the list of pending intel.
pub fn push_list(out: &mut String, items: &Value)
    ensures
        final(out)@ == old(out)@ + list_text(shape(*items)),
{
    match as_array(items) {
        Some(list) => {
            let ghost before = out@;
            let ghost all = shapes(list@);
            if list.len() == 0 {
                assert(out@ =~= before + items_text(all, 0));
            } else {
                push_item(out, 1, &list[0]);
                let mut i: usize = 1;
                while i < list.len()
                    invariant
                        1 <= i <= list.len(),
                        all == shapes(list@),
                        out@ == before + items_text(all, i as int),
                    decreases list.len() - i,
                {
                    out.append("\n\n");
                    push_item(out, i as u64 + 1, &list[i]);
                    i = i + 1;
                    assert(out@ =~= before + items_text(all, i as int));
                }
            }
        },
        None => {
            assert(final(out)@ =~= old(out)@ + list_text(shape(*items)));
        },
    }
}

/// Fetches pending intel, or reviews one item of it.
pub struct ReviewIntelTool {
    config: ClawFoundryConfig,
}

impl ReviewIntelTool {
    /// A tool that reaches the orchestrator as `config` says.
    pub fn new(config: ClawFoundryConfig) -> (tool: Self)
        ensures
            tool.config() == config,
    {
        ReviewIntelTool { config }
    }

    /// The configuration that this tool was made with.
    pub closed spec fn config(&self) -> ClawFoundryConfig {
        self.config
    }

    /// The configuration that this tool was made with.
    pub fn configuration(&self) -> (config: &ClawFoundryConfig)
        ensures
            *config == self.config(),
    {
        &self.config
    }

    /// The name under which the orchestrator knows this tool.
    pub fn name(&self) -> (name: &'static str)
        ensures
            name@ == NAME@,
    {
        NAME
    }

    /// What the tool tells of itself.
    pub fn description(&self) -> (description: &'static str)
        ensures
            description@ == DESCRIPTION@,
    {
        DESCRIPTION
    }

    /// The schema of the arguments.
    pub fn parameters_schema(&self) -> (schema: Value)
        ensures
            shape(schema) == schema_shape(),
    {
        let mut properties = empty_object();
        let mut choices = no_values();
        push_text(&mut choices, "fetch");
        push_text(&mut choices, "review");
        set_member(&mut properties, "action", choice(array(choices), ACTION_HELP));
        set_member(&mut properties, "limit", property("integer", LIMIT_HELP));
        set_member(&mut properties, "intelId", property("integer", INTEL_ID_HELP));
        let mut choices_2 = no_values();
        push_text(&mut choices_2, "accepted");
        push_text(&mut choices_2, "rejected");
        push_text(&mut choices_2, "investigating");
        set_member(&mut properties, "decision", choice(array(choices_2), DECISION_HELP));
        set_member(&mut properties, "reviewNote", property("string", REVIEW_NOTE_HELP));
        let mut required = no_values();
        push_text(&mut required, "action");
        object_schema(properties, Some(array(required)))
    }


    /// What the arguments `args` call for.
    pub fn prepare(&self, args: &Value) -> (prepared: Prepared)
        ensures
            prepared@ == preparation(shape(*args)),
    {
        let action = text_or(args, "action", "fetch");
        if same_text(action, "fetch") {
            let mut body = empty_object();
            set_member(&mut body, "action", from_text("fetch"));
            set_member(&mut body, "limit", from_i64(signed_or(args, "limit", 5)));
            Prepared::Call(body)
        } else if same_text(action, "review") {
            if as_i64(member(args, "intelId")).is_none() {
                return Prepared::Reject(String::from_str("intelId is required for action='review'"));
            }
            if text_at(args, "decision").is_none() {
                return Prepared::Reject(
                    String::from_str("decision is required for action='review'"),
                );
            }
            let mut body = empty_object();
            set_member(&mut body, "action", from_text("review"));
            copy_signed(&mut body, args, "intelId");
            copy_text(&mut body, args, "decision");
            set_member(&mut body, "reviewNote", text_or_null(text_at(args, "reviewNote")));
            Prepared::Call(body)
        } else {
            let mut reason = String::from_str("Invalid action '");
            reason.append(action);
            reason.append("'. Use 'fetch' or 'review'.");
            Prepared::Answer(ToolResult::failed(reason))
        }
    }

    /// The result of an exchange that ended as `outcome`: with the answer of
    /// the orchestrator, or with the message of a failure.
    pub fn respond(&self, args: &Value, outcome: Result<Value, String>) -> (result: ToolResult)
        ensures
            result@ == result_of(shape(*args), outcome_view(outcome)),
    {
        match outcome {
            Ok(response) => {
                let data = member(&response, "data");
                if same_text(text_or(args, "action", "fetch"), "fetch") {
                    let count = signed_or(data, "pendingCount", 0);
                    if count == 0 {
                        return ToolResult::succeeded(
                            String::from_str(
                                "No pending intel to review. Your community hasn't submitted any new intel yet.",
                            ),
                        );
                    }
                    let mut output = String::from_str("📥 ");
                    push_signed_decimal(&mut output, count);
                    output.append(" pending intel items:\n\n");
                    push_list(&mut output, member(data, "items"));
                    output.append("\n\n💡 ");
                    push_text_or(
                        &mut output,
                        data,
                        "instruction",
                        "Review each item using action='review'.",
                    );
                    ToolResult::succeeded(output)
                } else {
                    let mut output = String::from_str("✅ ");
                    push_text_or(&mut output, data, "message", "Review processed.");
                    ToolResult::succeeded(output)
                }
            },
            Err(error) => ToolResult::failed_with_context("Failed to review intel: ", error.as_str()),
        }
    }
}

} // verus!
