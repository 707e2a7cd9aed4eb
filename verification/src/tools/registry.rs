//! The tools that an agent is given, in their order.

use vstd::prelude::*;
use serde_json::Value;
use crate::json::{shape, JsonShape};
use crate::tools::orchestrator::ClawFoundryConfig;
use crate::tools::analyze_token::{self, AnalyzeTokenTool};
use crate::tools::browser_read::{self, BrowserReadTool};
use crate::tools::browser_screenshot::{self, BrowserScreenshotTool};
use crate::tools::change_model::{self, ChangeModelTool};
use crate::tools::check_balance::{self, CheckBalanceTool};
use crate::tools::check_kill_switch::{self, CheckKillSwitchTool};
use crate::tools::check_llm_balance::{self, CheckLlmBalanceTool};
use crate::tools::execute_swap::{self, ExecuteSwapTool};
use crate::tools::execute_transaction::{self, ExecuteTransactionTool};
use crate::tools::fund_llm_balance::{self, FundLlmBalanceTool};
use crate::tools::list_models::{self, ListModelsTool};
use crate::tools::make_announcement::{self, MakeAnnouncementTool};
use crate::tools::platform_feedback::{self, PlatformFeedbackTool};
use crate::tools::publish_thought::{self, PublishThoughtTool};
use crate::tools::request_tool::{self, RequestToolTool};
use crate::tools::review_intel::{self, ReviewIntelTool};

verus! {

/// The number of tools that an agent is given.
pub const TOOL_COUNT: usize = 16;

/// One of the tools that an agent is given.
pub enum ClawFoundryTool {
    CheckBalance(CheckBalanceTool),
    CheckKillSwitch(CheckKillSwitchTool),
    CheckLlmBalance(CheckLlmBalanceTool),
    AnalyzeToken(AnalyzeTokenTool),
    ExecuteSwap(ExecuteSwapTool),
    ExecuteTransaction(ExecuteTransactionTool),
    FundLlmBalance(FundLlmBalanceTool),
    RequestTool(RequestToolTool),
    PlatformFeedback(PlatformFeedbackTool),
    PublishThought(PublishThoughtTool),
    ReviewIntel(ReviewIntelTool),
    MakeAnnouncement(MakeAnnouncementTool),
    ListModels(ListModelsTool),
    ChangeModel(ChangeModelTool),
    BrowserRead(BrowserReadTool),
    BrowserScreenshot(BrowserScreenshotTool),
}

impl ClawFoundryTool {
    /// The place of this tool among the tools that an agent is given.
    pub open spec fn ordinal(&self) -> int {
        match self {
            ClawFoundryTool::CheckBalance(_) => 0,
            ClawFoundryTool::CheckKillSwitch(_) => 1,
            ClawFoundryTool::CheckLlmBalance(_) => 2,
            ClawFoundryTool::AnalyzeToken(_) => 3,
            ClawFoundryTool::ExecuteSwap(_) => 4,
            ClawFoundryTool::ExecuteTransaction(_) => 5,
            ClawFoundryTool::FundLlmBalance(_) => 6,
            ClawFoundryTool::RequestTool(_) => 7,
            ClawFoundryTool::PlatformFeedback(_) => 8,
            ClawFoundryTool::PublishThought(_) => 9,
            ClawFoundryTool::ReviewIntel(_) => 10,
            ClawFoundryTool::MakeAnnouncement(_) => 11,
            ClawFoundryTool::ListModels(_) => 12,
            ClawFoundryTool::ChangeModel(_) => 13,
            ClawFoundryTool::BrowserRead(_) => 14,
            ClawFoundryTool::BrowserScreenshot(_) => 15,
        }
    }

    /// The configuration that this tool was made with.
    pub open spec fn config(&self) -> ClawFoundryConfig {
        match self {
            ClawFoundryTool::CheckBalance(tool) => tool.config(),
            ClawFoundryTool::CheckKillSwitch(tool) => tool.config(),
            ClawFoundryTool::CheckLlmBalance(tool) => tool.config(),
            ClawFoundryTool::AnalyzeToken(tool) => tool.config(),
            ClawFoundryTool::ExecuteSwap(tool) => tool.config(),
            ClawFoundryTool::ExecuteTransaction(tool) => tool.config(),
            ClawFoundryTool::FundLlmBalance(tool) => tool.config(),
            ClawFoundryTool::RequestTool(tool) => tool.config(),
            ClawFoundryTool::PlatformFeedback(tool) => tool.config(),
            ClawFoundryTool::PublishThought(tool) => tool.config(),
            ClawFoundryTool::ReviewIntel(tool) => tool.config(),
            ClawFoundryTool::MakeAnnouncement(tool) => tool.config(),
            ClawFoundryTool::ListModels(tool) => tool.config(),
            ClawFoundryTool::ChangeModel(tool) => tool.config(),
            ClawFoundryTool::BrowserRead(tool) => tool.config(),
            ClawFoundryTool::BrowserScreenshot(tool) => tool.config(),
        }
    }

    /// The name of this tool.
    pub open spec fn name_text(&self) -> Seq<char> {
        match self {
            ClawFoundryTool::CheckBalance(_) => check_balance::NAME@,
            ClawFoundryTool::CheckKillSwitch(_) => check_kill_switch::NAME@,
            ClawFoundryTool::CheckLlmBalance(_) => check_llm_balance::NAME@,
            ClawFoundryTool::AnalyzeToken(_) => analyze_token::NAME@,
            ClawFoundryTool::ExecuteSwap(_) => execute_swap::NAME@,
            ClawFoundryTool::ExecuteTransaction(_) => execute_transaction::NAME@,
            ClawFoundryTool::FundLlmBalance(_) => fund_llm_balance::NAME@,
            ClawFoundryTool::RequestTool(_) => request_tool::NAME@,
            ClawFoundryTool::PlatformFeedback(_) => platform_feedback::NAME@,
            ClawFoundryTool::PublishThought(_) => publish_thought::NAME@,
            ClawFoundryTool::ReviewIntel(_) => review_intel::NAME@,
            ClawFoundryTool::MakeAnnouncement(_) => make_announcement::NAME@,
            ClawFoundryTool::ListModels(_) => list_models::NAME@,
            ClawFoundryTool::ChangeModel(_) => change_model::NAME@,
            ClawFoundryTool::BrowserRead(_) => browser_read::NAME@,
            ClawFoundryTool::BrowserScreenshot(_) => browser_screenshot::NAME@,
        }
    }

    /// What this tool tells of itself.
    pub open spec fn description_text(&self) -> Seq<char> {
        match self {
            ClawFoundryTool::CheckBalance(_) => check_balance::DESCRIPTION@,
            ClawFoundryTool::CheckKillSwitch(_) => check_kill_switch::DESCRIPTION@,
            ClawFoundryTool::CheckLlmBalance(_) => check_llm_balance::DESCRIPTION@,
            ClawFoundryTool::AnalyzeToken(_) => analyze_token::DESCRIPTION@,
            ClawFoundryTool::ExecuteSwap(_) => execute_swap::DESCRIPTION@,
            ClawFoundryTool::ExecuteTransaction(_) => execute_transaction::DESCRIPTION@,
            ClawFoundryTool::FundLlmBalance(_) => fund_llm_balance::DESCRIPTION@,
            ClawFoundryTool::RequestTool(_) => request_tool::DESCRIPTION@,
            ClawFoundryTool::PlatformFeedback(_) => platform_feedback::DESCRIPTION@,
            ClawFoundryTool::PublishThought(_) => publish_thought::DESCRIPTION@,
            ClawFoundryTool::ReviewIntel(_) => review_intel::DESCRIPTION@,
            ClawFoundryTool::MakeAnnouncement(_) => make_announcement::DESCRIPTION@,
            ClawFoundryTool::ListModels(_) => list_models::DESCRIPTION@,
            ClawFoundryTool::ChangeModel(_) => change_model::DESCRIPTION@,
            ClawFoundryTool::BrowserRead(_) => browser_read::DESCRIPTION@,
            ClawFoundryTool::BrowserScreenshot(_) => browser_screenshot::DESCRIPTION@,
        }
    }

    /// The schema of this tool's arguments.
    pub open spec fn schema_shape(&self) -> JsonShape {
        match self {
            ClawFoundryTool::CheckBalance(_) => check_balance::schema_shape(),
            ClawFoundryTool::CheckKillSwitch(_) => check_kill_switch::schema_shape(),
            ClawFoundryTool::CheckLlmBalance(_) => check_llm_balance::schema_shape(),
            ClawFoundryTool::AnalyzeToken(_) => analyze_token::schema_shape(),
            ClawFoundryTool::ExecuteSwap(_) => execute_swap::schema_shape(),
            ClawFoundryTool::ExecuteTransaction(_) => execute_transaction::schema_shape(),
            ClawFoundryTool::FundLlmBalance(_) => fund_llm_balance::schema_shape(),
            ClawFoundryTool::RequestTool(_) => request_tool::schema_shape(),
            ClawFoundryTool::PlatformFeedback(_) => platform_feedback::schema_shape(),
            ClawFoundryTool::PublishThought(_) => publish_thought::schema_shape(),
            ClawFoundryTool::ReviewIntel(_) => review_intel::schema_shape(),
            ClawFoundryTool::MakeAnnouncement(_) => make_announcement::schema_shape(),
            ClawFoundryTool::ListModels(_) => list_models::schema_shape(),
            ClawFoundryTool::ChangeModel(_) => change_model::schema_shape(),
            ClawFoundryTool::BrowserRead(_) => browser_read::schema_shape(),
            ClawFoundryTool::BrowserScreenshot(_) => browser_screenshot::schema_shape(),
        }
    }

    /// The name under which the orchestrator knows this tool.
    pub fn name(&self) -> (name: &'static str)
        ensures
            name@ == self.name_text(),
    {
        match self {
            ClawFoundryTool::CheckBalance(tool) => tool.name(),
            ClawFoundryTool::CheckKillSwitch(tool) => tool.name(),
            ClawFoundryTool::CheckLlmBalance(tool) => tool.name(),
            ClawFoundryTool::AnalyzeToken(tool) => tool.name(),
            ClawFoundryTool::ExecuteSwap(tool) => tool.name(),
            ClawFoundryTool::ExecuteTransaction(tool) => tool.name(),
            ClawFoundryTool::FundLlmBalance(tool) => tool.name(),
            ClawFoundryTool::RequestTool(tool) => tool.name(),
            ClawFoundryTool::PlatformFeedback(tool) => tool.name(),
            ClawFoundryTool::PublishThought(tool) => tool.name(),
            ClawFoundryTool::ReviewIntel(tool) => tool.name(),
            ClawFoundryTool::MakeAnnouncement(tool) => tool.name(),
            ClawFoundryTool::ListModels(tool) => tool.name(),
            ClawFoundryTool::ChangeModel(tool) => tool.name(),
            ClawFoundryTool::BrowserRead(tool) => tool.name(),
            ClawFoundryTool::BrowserScreenshot(tool) => tool.name(),
        }
    }

    /// What this tool tells of itself.
    pub fn description(&self) -> (description: &'static str)
        ensures
            description@ == self.description_text(),
    {
        match self {
            ClawFoundryTool::CheckBalance(tool) => tool.description(),
            ClawFoundryTool::CheckKillSwitch(tool) => tool.description(),
            ClawFoundryTool::CheckLlmBalance(tool) => tool.description(),
            ClawFoundryTool::AnalyzeToken(tool) => tool.description(),
            ClawFoundryTool::ExecuteSwap(tool) => tool.description(),
            ClawFoundryTool::ExecuteTransaction(tool) => tool.description(),
            ClawFoundryTool::FundLlmBalance(tool) => tool.description(),
            ClawFoundryTool::RequestTool(tool) => tool.description(),
            ClawFoundryTool::PlatformFeedback(tool) => tool.description(),
            ClawFoundryTool::PublishThought(tool) => tool.description(),
            ClawFoundryTool::ReviewIntel(tool) => tool.description(),
            ClawFoundryTool::MakeAnnouncement(tool) => tool.description(),
            ClawFoundryTool::ListModels(tool) => tool.description(),
            ClawFoundryTool::ChangeModel(tool) => tool.description(),
            ClawFoundryTool::BrowserRead(tool) => tool.description(),
            ClawFoundryTool::BrowserScreenshot(tool) => tool.description(),
        }
    }

    /// The schema of this tool's arguments.
    pub fn parameters_schema(&self) -> (schema: Value)
        ensures
            shape(schema) == self.schema_shape(),
    {
        match self {
            ClawFoundryTool::CheckBalance(tool) => tool.parameters_schema(),
            ClawFoundryTool::CheckKillSwitch(tool) => tool.parameters_schema(),
            ClawFoundryTool::CheckLlmBalance(tool) => tool.parameters_schema(),
            ClawFoundryTool::AnalyzeToken(tool) => tool.parameters_schema(),
            ClawFoundryTool::ExecuteSwap(tool) => tool.parameters_schema(),
            ClawFoundryTool::ExecuteTransaction(tool) => tool.parameters_schema(),
            ClawFoundryTool::FundLlmBalance(tool) => tool.parameters_schema(),
            ClawFoundryTool::RequestTool(tool) => tool.parameters_schema(),
            ClawFoundryTool::PlatformFeedback(tool) => tool.parameters_schema(),
            ClawFoundryTool::PublishThought(tool) => tool.parameters_schema(),
            ClawFoundryTool::ReviewIntel(tool) => tool.parameters_schema(),
            ClawFoundryTool::MakeAnnouncement(tool) => tool.parameters_schema(),
            ClawFoundryTool::ListModels(tool) => tool.parameters_schema(),
            ClawFoundryTool::ChangeModel(tool) => tool.parameters_schema(),
            ClawFoundryTool::BrowserRead(tool) => tool.parameters_schema(),
            ClawFoundryTool::BrowserScreenshot(tool) => tool.parameters_schema(),
        }
    }

    /// The configuration that this tool was made with.
    pub fn configuration(&self) -> (config: &ClawFoundryConfig)
        ensures
            *config == self.config(),
    {
        match self {
            ClawFoundryTool::CheckBalance(tool) => tool.configuration(),
            ClawFoundryTool::CheckKillSwitch(tool) => tool.configuration(),
            ClawFoundryTool::CheckLlmBalance(tool) => tool.configuration(),
            ClawFoundryTool::AnalyzeToken(tool) => tool.configuration(),
            ClawFoundryTool::ExecuteSwap(tool) => tool.configuration(),
            ClawFoundryTool::ExecuteTransaction(tool) => tool.configuration(),
            ClawFoundryTool::FundLlmBalance(tool) => tool.configuration(),
            ClawFoundryTool::RequestTool(tool) => tool.configuration(),
            ClawFoundryTool::PlatformFeedback(tool) => tool.configuration(),
            ClawFoundryTool::PublishThought(tool) => tool.configuration(),
            ClawFoundryTool::ReviewIntel(tool) => tool.configuration(),
            ClawFoundryTool::MakeAnnouncement(tool) => tool.configuration(),
            ClawFoundryTool::ListModels(tool) => tool.configuration(),
            ClawFoundryTool::ChangeModel(tool) => tool.configuration(),
            ClawFoundryTool::BrowserRead(tool) => tool.configuration(),
            ClawFoundryTool::BrowserScreenshot(tool) => tool.configuration(),
        }
    }
}

/// The tools of an agent that reaches the orchestrator as `config` says:
/// every tool once, in a fixed order, each with the settings of `config`.
/// Without a configuration there are none.
pub fn clawfoundry_tools(config: Option<ClawFoundryConfig>) -> (tools: Vec<ClawFoundryTool>)
    ensures
        match config {
            Some(c) => tools@.len() == TOOL_COUNT && forall|i: int|
                0 <= i < TOOL_COUNT ==> (#[trigger] tools@[i]).ordinal() == i && tools@[i].config()@
                    == c@,
            None => tools@.len() == 0,
        },
{
    let mut tools: Vec<ClawFoundryTool> = Vec::new();
    match config {
        Some(c) => {
            tools.push(ClawFoundryTool::CheckBalance(CheckBalanceTool::new(c.duplicate())));
            tools.push(ClawFoundryTool::CheckKillSwitch(CheckKillSwitchTool::new(c.duplicate())));
            tools.push(ClawFoundryTool::CheckLlmBalance(CheckLlmBalanceTool::new(c.duplicate())));
            tools.push(ClawFoundryTool::AnalyzeToken(AnalyzeTokenTool::new(c.duplicate())));
            tools.push(ClawFoundryTool::ExecuteSwap(ExecuteSwapTool::new(c.duplicate())));
            tools.push(ClawFoundryTool::ExecuteTransaction(ExecuteTransactionTool::new(c.duplicate())));
            tools.push(ClawFoundryTool::FundLlmBalance(FundLlmBalanceTool::new(c.duplicate())));
            tools.push(ClawFoundryTool::RequestTool(RequestToolTool::new(c.duplicate())));
            tools.push(ClawFoundryTool::PlatformFeedback(PlatformFeedbackTool::new(c.duplicate())));
            tools.push(ClawFoundryTool::PublishThought(PublishThoughtTool::new(c.duplicate())));
            tools.push(ClawFoundryTool::ReviewIntel(ReviewIntelTool::new(c.duplicate())));
            tools.push(ClawFoundryTool::MakeAnnouncement(MakeAnnouncementTool::new(c.duplicate())));
            tools.push(ClawFoundryTool::ListModels(ListModelsTool::new(c.duplicate())));
            tools.push(ClawFoundryTool::ChangeModel(ChangeModelTool::new(c.duplicate())));
            tools.push(ClawFoundryTool::BrowserRead(BrowserReadTool::new(c.duplicate())));
            tools.push(ClawFoundryTool::BrowserScreenshot(BrowserScreenshotTool::new(c.duplicate())));
        },
        None => {},
    }
    tools
}

} // verus!
