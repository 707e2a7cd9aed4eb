//! Tools that delegate to the orchestrator: what each sends, and how each
//! words what comes back. Sending is the caller's part.

pub mod analyze_token;
pub mod browser_read;
pub mod browser_screenshot;
pub mod change_model;
pub mod check_balance;
pub mod check_kill_switch;
pub mod check_llm_balance;
pub mod execute_swap;
pub mod execute_transaction;
pub mod farcaster_post;
pub mod fund_llm_balance;
pub mod harvest_yield;
pub mod list_models;
pub mod make_announcement;
pub mod orchestrator;
pub mod platform_feedback;
pub mod playground_post;
pub mod playground_react;
pub mod playground_read;
pub mod publish_thought;
pub mod registry;
pub mod request_tool;
pub mod review_intel;
pub mod schema;

pub use analyze_token::AnalyzeTokenTool;
pub use browser_read::BrowserReadTool;
pub use browser_screenshot::BrowserScreenshotTool;
pub use change_model::ChangeModelTool;
pub use check_balance::CheckBalanceTool;
pub use check_kill_switch::CheckKillSwitchTool;
pub use check_llm_balance::CheckLlmBalanceTool;
pub use execute_swap::ExecuteSwapTool;
pub use execute_transaction::ExecuteTransactionTool;
pub use farcaster_post::FarcasterPostTool;
pub use fund_llm_balance::FundLlmBalanceTool;
pub use harvest_yield::HarvestYieldTool;
pub use list_models::ListModelsTool;
pub use make_announcement::MakeAnnouncementTool;
pub use platform_feedback::PlatformFeedbackTool;
pub use playground_post::PlaygroundPostTool;
pub use playground_react::PlaygroundReactTool;
pub use playground_read::PlaygroundReadTool;
pub use publish_thought::PublishThoughtTool;
pub use request_tool::RequestToolTool;
pub use review_intel::ReviewIntelTool;
pub use orchestrator::{ClawFoundryConfig, Prepared, ToolResult};
pub use registry::{clawfoundry_tools, ClawFoundryTool};
