//! Credits for inference, bought with ETH from the treasury.

use vstd::prelude::*;
use serde_json::Value;
use crate::json::{
    array, empty_object, from_text, member, push_text_or, push_unsigned_or, set_member, shape,
    text_or, JsonShape,
};
use crate::text::{decimal};
use crate::tools::orchestrator::{
    failure_with, outcome_view, success_with, ClawFoundryConfig, Prepared, PreparedView,
    ToolResult, ToolResultView,
};
use crate::tools::schema::{
    no_values, object_schema, object_shape, property, property_shape, push_text,
};

verus! {

/// The name under which the orchestrator knows this tool.
pub const NAME: &'static str = "fund_llm_balance";

/// What the tool tells of itself.
pub const DESCRIPTION: &'static str =
    "Fund your LLM inference credits by transferring ETH from your treasury wallet. The ETH is converted to USD-denominated LLM credits at the current ETH price. A 5% genesis tax is applied. Guardrails: minimum 0.01 ETH gas reserve is kept, and you cannot transfer more than 50% of your balance in one transaction.";

/// Help text of the argument `amount_eth`.
pub const AMOUNT_ETH_HELP: &'static str =
    "Amount of ETH to convert to LLM credits (e.g. \"0.01\").";

/// The schema of the arguments.
pub open spec fn schema_shape() -> JsonShape {
    object_shape(
        JsonShape::Object(Map::empty()).with(
            "amount_eth"@,
            property_shape("string"@, AMOUNT_ETH_HELP@),
        ),
        Some(
            JsonShape::Array(
                Seq::<JsonShape>::empty()
                    .push(JsonShape::String("amount_eth"@)),
            ),
        ),
    )
}

/// The body of the request for the arguments `args`.
pub open spec fn request_body(args: JsonShape) -> JsonShape {
    JsonShape::Object(Map::empty()).with(
        "amount_eth"@,
        JsonShape::String(args.member("amount_eth"@).text_or(""@)),
    )
}

/// What the arguments `args` call for: the request, or a failure at once
/// where they name no amount.
pub open spec fn preparation(args: JsonShape) -> PreparedView {
    if args.member("amount_eth"@).text_or(""@).len() == 0 {
        PreparedView::Answer(failure_with("amount_eth parameter is required"@))
    } else {
        PreparedView::Call(request_body(args))
    }
}

/// The amounts of a funding report that the caller words, each a text in
/// decimal notation.
#[derive(Debug, Clone)]
pub struct FundingFigures {
    /// The price of one ETH in dollars.
    pub eth_price: String,
    /// The value of the ETH sent, in dollars.
    pub usd_value: String,
    /// The credits added, in dollars.
    pub credits_added: String,
    /// The tax taken, in dollars.
    pub genesis_tax: String,
    /// The balance after the funding, in dollars.
    pub new_balance: String,
}

/// The figures of a funding report as plain values.
pub struct FundingFiguresView {
    pub eth_price: Seq<char>,
    pub usd_value: Seq<char>,
    pub credits_added: Seq<char>,
    pub genesis_tax: Seq<char>,
    pub new_balance: Seq<char>,
}

impl View for FundingFigures {
    type V = FundingFiguresView;

    open spec fn view(&self) -> FundingFiguresView {
        FundingFiguresView {
            eth_price: self.eth_price@,
            usd_value: self.usd_value@,
            credits_added: self.credits_added@,
            genesis_tax: self.genesis_tax@,
            new_balance: self.new_balance@,
        }
    }
}

/// How a funding is worded.
pub open spec fn report(args: JsonShape, response: JsonShape, figures: FundingFiguresView) -> Seq<
    char,
> {
    "LLM Funding Successful!\nETH Sent: "@
        + args.member("amount_eth"@).text_or(""@)
        + " ETH (@ $"@
        + figures.eth_price
        + "/ETH)\nUSD Value: $"@
        + figures.usd_value
        + "\nCredits Added: $"@
        + figures.credits_added
        + "\nGenesis Tax: $"@
        + figures.genesis_tax
        + " ("@
        + response.member("data"@).member("genesisTaxRate"@).text_or("5%"@)
        + ")\nNew Balance: $"@
        + figures.new_balance
        + "\nEstimated Calls: ~"@
        + decimal(
        response.member("data"@).member("estimatedCallsAtCurrentModel"@).unsigned_or(0) as nat,
    )
        + " at "@
        + response.member("data"@).member("currentModel"@).text_or("unknown"@)
        + "\nTx: "@
        + response.member("data"@).member("txHash"@).text_or("unknown"@)
}

/// The result of an exchange that ended as `outcome`: the report of the
/// answer, or a failure with the message of the exchange.
pub open spec fn result_of(
    args: JsonShape,
    outcome: Result<JsonShape, Seq<char>>,
    figures: FundingFiguresView,
) -> ToolResultView {
    match outcome {
        Ok(response) => success_with(report(args, response, figures)),
        Err(error) => failure_with(error),
    }
}

/// Funds the agent's credit for inference from its treasury.
pub struct FundLlmBalanceTool {
    config: ClawFoundryConfig,
}

impl FundLlmBalanceTool {
    /// A tool that reaches the orchestrator as `config` says.
    pub fn new(config: ClawFoundryConfig) -> (tool: Self)
        ensures
            tool.config() == config,
    {
        FundLlmBalanceTool { config }
    }

    /// The configuration that this tool was made with.
    pub closed spec fn config(&self) -> ClawFoundryConfig {
        self.config
    }

    /// The configuration that this tool was made with.
    pub fn configuration(&self) -> (config: &ClawFoundryConfig)
        ensures
            *config == self.config(),
    {
        &self.config
    }

    /// The name under which the orchestrator knows this tool.
    pub fn name(&self) -> (name: &'static str)
        ensures
            name@ == NAME@,
    {
        NAME
    }

    /// What the tool tells of itself.
    pub fn description(&self) -> (description: &'static str)
        ensures
            description@ == DESCRIPTION@,
    {
        DESCRIPTION
    }

    /// The schema of the arguments.
    pub fn parameters_schema(&self) -> (schema: Value)
        ensures
            shape(schema) == schema_shape(),
    {
        let mut properties = empty_object();
        set_member(&mut properties, "amount_eth", property("string", AMOUNT_ETH_HELP));
        let mut required = no_values();
        push_text(&mut required, "amount_eth");
        object_schema(properties, Some(array(required)))
    }


    /// What the arguments `args` call for.
    pub fn prepare(&self, args: &Value) -> (prepared: Prepared)
        ensures
            prepared@ == preparation(shape(*args)),
    {
        let amount = text_or(args, "amount_eth", "");
        if amount.is_empty() {
            return Prepared::Answer(
                ToolResult::failed(String::from_str("amount_eth parameter is required")),
            );
        }
        let mut body = empty_object();
        set_member(&mut body, "amount_eth", from_text(amount));
        Prepared::Call(body)
    }

    /// The result of an exchange that ended as `outcome`: with the answer of
    /// the orchestrator and the amounts that the caller worded from it, or
    /// with the message of a failure.
    pub fn respond(
        &self,
        args: &Value,
        outcome: Result<Value, String>,
        figures: &FundingFigures,
    ) -> (result: ToolResult)
        ensures
            result@ == result_of(shape(*args), outcome_view(outcome), figures@),
    {
        match outcome {
            Ok(response) => {
                let data = member(&response, "data");
                let mut output = String::from_str("LLM Funding Successful!\nETH Sent: ");
                push_text_or(&mut output, args, "amount_eth", "");
                output.append(" ETH (@ $");
                output.append(figures.eth_price.as_str());
                output.append("/ETH)\nUSD Value: $");
                output.append(figures.usd_value.as_str());
                output.append("\nCredits Added: $");
                output.append(figures.credits_added.as_str());
                output.append("\nGenesis Tax: $");
                output.append(figures.genesis_tax.as_str());
                output.append(" (");
                push_text_or(&mut output, data, "genesisTaxRate", "5%");
                output.append(")\nNew Balance: $");
                output.append(figures.new_balance.as_str());
                output.append("\nEstimated Calls: ~");
                push_unsigned_or(&mut output, data, "estimatedCallsAtCurrentModel", 0);
                output.append(" at ");
                push_text_or(&mut output, data, "currentModel", "unknown");
                output.append("\nTx: ");
                push_text_or(&mut output, data, "txHash", "unknown");
                ToolResult::succeeded(output)
            },
            Err(error) => ToolResult::failed(error),
        }
    }
}

} // verus!
