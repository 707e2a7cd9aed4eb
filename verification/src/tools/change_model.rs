//! A change of the model that the agent thinks with.

use vstd::prelude::*;
use serde_json::Value;
use crate::json::{
    array, empty_object, from_text, member, push_text_or, set_member, shape, text_or, JsonShape,
};
use crate::text::{trim, trimmed};
use crate::tools::orchestrator::{
    failure_with, outcome_view, success_with, ClawFoundryConfig, Prepared, PreparedView,
    ToolResult, ToolResultView,
};
use crate::tools::schema::{
    no_values, object_schema, object_shape, property, property_shape, push_text,
};

verus! {

/// The name under which the orchestrator knows this tool.
pub const NAME: &'static str = "change_model";

/// What the tool tells of itself.
pub const DESCRIPTION: &'static str =
    "Switch your LLM model. This is a survival decision: premium models cost ~$0.018/request but reason better; budget models like DeepSeek cost ~$0.001/request and conserve credits. Choose based on your financial pressure and the importance of upcoming decisions. Use list_models first to see available options and pricing. WARNING: Some models do not support tool/function calling — you will lose the ability to use tools if you switch to one of those models.";

/// Help text of the argument `model`.
pub const MODEL_HELP: &'static str =
    "The model name to switch to (e.g. 'deepseek-chat', 'gpt-4o'). Use list_models to see valid names.";

/// Help text of the argument `reason`.
pub const REASON_HELP: &'static str =
    "Brief explanation of why you're switching (e.g. 'conserving credits under financial pressure', 'need better reasoning for critical trade decision')";

/// The schema of the arguments.
pub open spec fn schema_shape() -> JsonShape {
    object_shape(
        JsonShape::Object(Map::empty()).with(
            "model"@,
            property_shape("string"@, MODEL_HELP@),
        ).with(
            "reason"@,
            property_shape("string"@, REASON_HELP@),
        ),
        Some(
            JsonShape::Array(
                Seq::<JsonShape>::empty()
                    .push(JsonShape::String("model"@)),
            ),
        ),
    )
}

/// The body of the request for a switch to `model`.
pub open spec fn request_body(model: Seq<char>, args: JsonShape) -> JsonShape {
    JsonShape::Object(Map::empty())
        .with("model"@, JsonShape::String(model))
        .with("reason"@, JsonShape::String(args.member("reason"@).text_or("No reason provided"@)))
}

/// What a switch to `model` calls for: the request, or a failure at once
/// where no model is named.
pub open spec fn preparation(model: Seq<char>, args: JsonShape) -> PreparedView {
    if model.len() == 0 {
        PreparedView::Answer(failure_with("Missing required parameter: model"@))
    } else {
        PreparedView::Call(request_body(model, args))
    }
}

/// How a switch to `model` is worded, with the warning of the answer
/// where it gives one.
pub open spec fn report(model: Seq<char>, args: JsonShape, response: JsonShape) -> Seq<char> {
    let switched = "✅ Model switched to: "@
        + response.member("data"@).member("model"@).text_or(model)
        + "\nProvider: "@
        + response.member("data"@).member("provider"@).text_or("unknown"@)
        + "\nTier: "@
        + response.member("data"@).member("tier"@).text_or("unknown"@)
        + "\nCost: "@
        + response.member("data"@).member("costPerRequest"@).text_or("unknown"@)
        + "/req\nReason: "@
        + args.member("reason"@).text_or("No reason provided"@);
    let warning = response.member("data"@).member("toolSupportWarning"@).text_or(""@);
    if warning.len() == 0 {
        switched
    } else {
        switched + "\n⚠️ WARNING: "@ + warning
    }
}

/// The result of an exchange that ended as `outcome`: the report of the
/// answer, or a failure with the message of the exchange.
pub open spec fn result_for(
    model: Seq<char>,
    args: JsonShape,
    outcome: Result<JsonShape, Seq<char>>,
) -> ToolResultView {
    match outcome {
        Ok(response) => success_with(report(model, args, response)),
        Err(error) => failure_with(error),
    }
}

/// Switches the agent's model.
pub struct ChangeModelTool {
    config: ClawFoundryConfig,
}

impl ChangeModelTool {
    /// A tool that reaches the orchestrator as `config` says.
    pub fn new(config: ClawFoundryConfig) -> (tool: Self)
        ensures
            tool.config() == config,
    {
        ChangeModelTool { config }
    }

    /// The configuration that this tool was made with.
    pub closed spec fn config(&self) -> ClawFoundryConfig {
        self.config
    }

    /// The configuration that this tool was made with.
    pub fn configuration(&self) -> (config: &ClawFoundryConfig)
        ensures
            *config == self.config(),
    {
        &self.config
    }

    /// The name under which the orchestrator knows this tool.
    pub fn name(&self) -> (name: &'static str)
        ensures
            name@ == NAME@,
    {
        NAME
    }

    /// What the tool tells of itself.
    pub fn description(&self) -> (description: &'static str)
        ensures
            description@ == DESCRIPTION@,
    {
        DESCRIPTION
    }

    /// The schema of the arguments.
    pub fn parameters_schema(&self) -> (schema: Value)
        ensures
            shape(schema) == schema_shape(),
    {
        let mut properties = empty_object();
        set_member(&mut properties, "model", property("string", MODEL_HELP));
        set_member(&mut properties, "reason", property("string", REASON_HELP));
        let mut required = no_values();
        push_text(&mut required, "model");
        object_schema(properties, Some(array(required)))
    }


    /// The model that the arguments name: the text under `model` without the
    /// white space around it, and the empty text where there is none.
    pub fn model_name<'a>(&self, args: &'a Value) -> (model: &'a str)
        ensures
            model@ == trimmed(shape(*args).member("model"@).text_or(""@)),
    {
        trim(text_or(args, "model", ""))
    }

    /// What a switch to `model` calls for, with the reason that `args` give.
    pub fn prepare_for(&self, model: &str, args: &Value) -> (prepared: Prepared)
        ensures
            prepared@ == preparation(model@, shape(*args)),
    {
        if model.is_empty() {
            return Prepared::Answer(
                ToolResult::failed(String::from_str("Missing required parameter: model")),
            );
        }
        let mut body = empty_object();
        set_member(&mut body, "model", from_text(model));
        set_member(&mut body, "reason", from_text(text_or(args, "reason", "No reason provided")));
        Prepared::Call(body)
    }

    /// What the arguments `args` call for.
    pub fn prepare(&self, args: &Value) -> (prepared: Prepared)
        ensures
            prepared@ == preparation(
                trimmed(shape(*args).member("model"@).text_or(""@)),
                shape(*args),
            ),
    {
        self.prepare_for(self.model_name(args), args)
    }

    /// The result of a switch to `model` whose exchange ended as `outcome`.
    pub fn respond_for(&self, model: &str, args: &Value, outcome: Result<Value, String>) -> (result:
        ToolResult)
        ensures
            result@ == result_for(model@, shape(*args), outcome_view(outcome)),
    {
        match outcome {
            Ok(response) => {
                let data = member(&response, "data");
                let mut output = String::from_str("✅ Model switched to: ");
                output.append(text_or(data, "model", model));
                output.append("\nProvider: ");
                push_text_or(&mut output, data, "provider", "unknown");
                output.append("\nTier: ");
                push_text_or(&mut output, data, "tier", "unknown");
                output.append("\nCost: ");
                push_text_or(&mut output, data, "costPerRequest", "unknown");
                output.append("/req\nReason: ");
                push_text_or(&mut output, args, "reason", "No reason provided");
                let warning = text_or(data, "toolSupportWarning", "");
                if !warning.is_empty() {
                    output.append("\n⚠️ WARNING: ");
                    output.append(warning);
                }
                ToolResult::succeeded(output)
            },
            Err(error) => ToolResult::failed(error),
        }
    }

    /// The result of an exchange that ended as `outcome`: with the answer of
    /// the orchestrator, or with the message of a failure.
    pub fn respond(&self, args: &Value, outcome: Result<Value, String>) -> (result: ToolResult)
        ensures
            result@ == result_for(
                trimmed(shape(*args).member("model"@).text_or(""@)),
                shape(*args),
                outcome_view(outcome),
            ),
    {
        self.respond_for(self.model_name(args), args, outcome)
    }
}

} // verus!
