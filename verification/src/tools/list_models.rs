//! The models that the agent can switch to.

use vstd::prelude::*;
use serde_json::Value;
use crate::json::{as_array, empty_object, member, push_text_or, shape, shapes, truth_or, JsonShape};
use crate::tools::orchestrator::{
    failure_with, outcome_view, success_with, ClawFoundryConfig, Prepared, PreparedView,
    ToolResult, ToolResultView,
};
use crate::tools::schema::{object_schema, object_shape};

verus! {

/// The name under which the orchestrator knows this tool.
pub const NAME: &'static str = "list_models";

/// What the tool tells of itself.
pub const DESCRIPTION: &'static str =
    "List all available LLM models you can switch to. Returns model names, providers, pricing tiers, and whether each model supports tool/function calling. Use this before change_model to understand cost vs. capability trade-offs. Budget models ($0.001/req) conserve credits; premium models ($0.018/req) provide better reasoning for critical survival decisions.";

/// The schema of the arguments.
pub open spec fn schema_shape() -> JsonShape {
    object_shape(
        JsonShape::Object(Map::empty()),
        None,
    )
}

/// The body of the request for the arguments `args`.
pub open spec fn request_body(args: JsonShape) -> JsonShape {
    JsonShape::Object(Map::empty())
}

/// What the arguments `args` call for: always the request.
pub open spec fn preparation(args: JsonShape) -> PreparedView {
    PreparedView::Call(request_body(args))
}

/// What stands for a cost that the caller has not worded.
pub const NO_COST: &'static str = "?";

/// The cost of model `i` as the caller worded it, or [`NO_COST`] where the
/// caller worded none for it.
pub open spec fn cost_of(costs: Seq<Seq<char>>, i: int) -> Seq<char> {
    if 0 <= i < costs.len() {
        costs[i]
    } else {
        NO_COST@
    }
}

/// The line of one model: its name, provider, tier and cost, and a note
/// where the model cannot call tools.
pub open spec fn model_line(model: JsonShape, cost: Seq<char>) -> Seq<char> {
    "\n  - "@ + model.member("name"@).text_or("?"@) + " ("@ + model.member("provider"@).text_or(
        "?"@,
    ) + ") | tier: "@ + model.member("tier"@).text_or("?"@) + " | cost: "@ + cost + "/req"@ + (
    if model.member("supportsTools"@).truth_or(true) {
        Seq::<char>::empty()
    } else {
        " [NO TOOLS]"@
    })
}

/// The lines of the first `n` models.
pub open spec fn model_lines(models: Seq<JsonShape>, costs: Seq<Seq<char>>, n: int) -> Seq<char>
    decreases n,
{
    if n <= 0 {
        Seq::<char>::empty()
    } else {
        model_lines(models, costs, n - 1) + model_line(models[n - 1], cost_of(costs, n - 1))
    }
}

/// How the models of the answer are worded: the current model and a line
/// for each model, or a note that there are none.
pub open spec fn report(response: JsonShape, costs: Seq<Seq<char>>) -> Seq<char> {
    match response.member("data"@).member("models"@).items() {
        Some(models) => if models.len() == 0 {
            "No models available."@
        } else {
            "Current model: "@ + response.member("data"@).member("currentModel"@).text_or(
                "unknown"@,
            ) + "\n\nAvailable models:"@ + model_lines(models, costs, models.len() as int)
        },
        None => "No models available."@,
    }
}

/// The result of an exchange that ended as `outcome`: the report of the
/// answer, or a failure with the message of the exchange.
pub open spec fn result_of(outcome: Result<JsonShape, Seq<char>>, costs: Seq<Seq<char>>) -> ToolResultView {
    match outcome {
        Ok(response) => success_with(report(response, costs)),
        Err(error) => failure_with(error),
    }
}

/// The texts of a list of strings, one for one.
pub open spec fn texts(list: Seq<String>) -> Seq<Seq<char>> {
    list.map_values(|s: String| s@)
}

/// Appends the line of one model.
pub fn push_model(out: &mut String, model: &Value, cost: &str)
    ensures
        final(out)@ == old(out)@ + model_line(shape(*model), cost@),
{
    let ghost before = out@;
    out.append("\n  - ");
    push_text_or(out, model, "name", "?");
    out.append(" (");
    push_text_or(out, model, "provider", "?");
    out.append(") | tier: ");
    push_text_or(out, model, "tier", "?");
    out.append(" | cost: ");
    out.append(cost);
    out.append("/req");
    if !truth_or(model, "supportsTools", true) {
        out.append(" [NO TOOLS]");
    }
    assert(out@ =~= before + model_line(shape(*model), cost@));
}

/// Lists the models that the agent can switch to.
pub struct ListModelsTool {
    config: ClawFoundryConfig,
}

impl ListModelsTool {
    /// A tool that reaches the orchestrator as `config` says.
    pub fn new(config: ClawFoundryConfig) -> (tool: Self)
        ensures
            tool.config() == config,
    {
        ListModelsTool { config }
    }

    /// The configuration that this tool was made with.
    pub closed spec fn config(&self) -> ClawFoundryConfig {
        self.config
    }

    /// The configuration that this tool was made with.
    pub fn configuration(&self) -> (config: &ClawFoundryConfig)
        ensures
            *config == self.config(),
    {
        &self.config
    }

    /// The name under which the orchestrator knows this tool.
    pub fn name(&self) -> (name: &'static str)
        ensures
            name@ == NAME@,
    {
        NAME
    }

    /// What the tool tells of itself.
    pub fn description(&self) -> (description: &'static str)
        ensures
            description@ == DESCRIPTION@,
    {
        DESCRIPTION
    }

    /// The schema of the arguments.
    pub fn parameters_schema(&self) -> (schema: Value)
        ensures
            shape(schema) == schema_shape(),
    {
        let mut properties = empty_object();
        object_schema(properties, None)
    }

    /// What the arguments `args` call for.
    pub fn prepare(&self, args: &Value) -> (prepared: Prepared)
        ensures
            prepared@ == preparation(shape(*args)),
    {
        let mut body = empty_object();
        Prepared::Call(body)
    }

    /// The result of an exchange that ended as `outcome`: with the answer of
    /// the orchestrator and the cost of each model as the caller worded it,
    /// in the order of the models, or with the message of a failure.
    pub fn respond(&self, outcome: Result<Value, String>, costs: &Vec<String>) -> (result:
        ToolResult)
        ensures
            result@ == result_of(outcome_view(outcome), texts(costs@)),
    {
        match outcome {
            Ok(response) => {
                let data = member(&response, "data");
                match as_array(member(data, "models")) {
                    Some(models) => {
                        if models.len() == 0 {
                            return ToolResult::succeeded(String::from_str("No models available."));
                        }
                        let mut output = String::from_str("Current model: ");
                        push_text_or(&mut output, data, "currentModel", "unknown");
                        output.append("\n\nAvailable models:");
                        let ghost before = output@;
                        let ghost all = shapes(models@);
                        let mut i: usize = 0;
                        assert(output@ =~= before + model_lines(all, texts(costs@), 0));
                        while i < models.len()
                            invariant
                                i <= models.len(),
                                all == shapes(models@),
                                output@ == before + model_lines(all, texts(costs@), i as int),
                            decreases models.len() - i,
                        {
                            if i < costs.len() {
                                push_model(&mut output, &models[i], costs[i].as_str());
                            } else {
                                push_model(&mut output, &models[i], NO_COST);
                            }
                            i = i + 1;
                            assert(output@ =~= before + model_lines(all, texts(costs@), i as int));
                        }
                        ToolResult::succeeded(output)
                    },
                    None => ToolResult::succeeded(String::from_str("No models available.")),
                }
            },
            Err(error) => ToolResult::failed(error),
        }
    }
}

} // verus!
