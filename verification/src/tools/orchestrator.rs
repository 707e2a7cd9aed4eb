//! The exchange with the orchestrator: where a request goes, what it
//! carries, how its answer is read, and what a tool hands back.

use vstd::prelude::*;
use serde_json::Value;
use crate::json::{shape, text_or, JsonShape};
use crate::text::{trim_trailing, without_trailing};

verus! {

/// Seconds after which a request to the orchestrator is given up.
pub const TIMEOUT_SECS: u64 = 15;

/// Where the orchestrator is reached and how the agent names itself to it.
#[derive(Debug, Clone)]
pub struct ClawFoundryConfig {
    /// Base address of the orchestrator, without a slash at its end.
    pub orchestrator_url: String,
    /// The address of the agent's token, which names the agent.
    pub agent_token: String,
    /// The shared secret; empty where there is none.
    pub secret: String,
}

/// A configuration as plain values.
pub struct ClawFoundryConfigView {
    pub orchestrator_url: Seq<char>,
    pub agent_token: Seq<char>,
    pub secret: Seq<char>,
}

impl View for ClawFoundryConfig {
    type V = ClawFoundryConfigView;

    open spec fn view(&self) -> ClawFoundryConfigView {
        ClawFoundryConfigView {
            orchestrator_url: self.orchestrator_url@,
            agent_token: self.agent_token@,
            secret: self.secret@,
        }
    }
}

/// The configuration that the three settings give: none unless both the
/// address and the token are set and not empty; the address loses the
/// slashes at its end, and a secret that is not set is empty.
pub open spec fn config_from(
    url: Option<Seq<char>>,
    token: Option<Seq<char>>,
    secret: Option<Seq<char>>,
) -> Option<ClawFoundryConfigView> {
    match (url, token) {
        (Some(u), Some(t)) => if u.len() == 0 || t.len() == 0 {
            None
        } else {
            Some(
                ClawFoundryConfigView {
                    orchestrator_url: without_trailing(u, '/'),
                    agent_token: t,
                    secret: match secret {
                        Some(s) => s,
                        None => Seq::<char>::empty(),
                    },
                },
            )
        },
        _ => None,
    }
}

/// The view of a setting that may be missing.
pub open spec fn setting_view(setting: Option<String>) -> Option<Seq<char>> {
    match setting {
        Some(s) => Some(s@),
        None => None,
    }
}

impl ClawFoundryConfig {
    /// The configuration that the settings for the orchestrator's address,
    /// the agent's token and the shared secret give.
    pub fn from_vars(url: Option<String>, token: Option<String>, secret: Option<String>) -> (config:
        Option<ClawFoundryConfig>)
        ensures
            match config {
                Some(c) => config_from(
                    setting_view(url),
                    setting_view(token),
                    setting_view(secret),
                ) == Some(c@),
                None => config_from(setting_view(url), setting_view(token), setting_view(secret))
                    is None,
            },
    {
        match (url, token) {
            (Some(u), Some(t)) => {
                if u.as_str().is_empty() || t.as_str().is_empty() {
                    None
                } else {
                    Some(
                        ClawFoundryConfig {
                            orchestrator_url: String::from_str(trim_trailing(u.as_str(), '/')),
                            agent_token: t,
                            secret: match secret {
                                Some(s) => s,
                                None => String::new(),
                            },
                        },
                    )
                }
            },
            _ => None,
        }
    }

    /// A configuration with the same settings.
    pub fn duplicate(&self) -> (copy: ClawFoundryConfig)
        ensures
            copy@ == self@,
    {
        ClawFoundryConfig {
            orchestrator_url: self.orchestrator_url.clone(),
            agent_token: self.agent_token.clone(),
            secret: self.secret.clone(),
        }
    }
}

/// The address that requests for the tool `tool_name` go to.
pub open spec fn endpoint_text(config: ClawFoundryConfigView, tool_name: Seq<char>) -> Seq<char> {
    config.orchestrator_url + "/internal/tools/"@ + tool_name
}

/// The address that requests for the tool `tool_name` go to.
pub fn endpoint(config: &ClawFoundryConfig, tool_name: &str) -> (url: String)
    ensures
        url@ == endpoint_text(config@, tool_name@),
{
    let mut url = String::from_str(config.orchestrator_url.as_str());
    url.append("/internal/tools/");
    url.append(tool_name);
    url
}

/// One header of a request.
#[derive(Debug, Clone)]
pub struct Header {
    pub name: String,
    pub value: String,
}

impl View for Header {
    type V = (Seq<char>, Seq<char>);

    open spec fn view(&self) -> (Seq<char>, Seq<char>) {
        (self.name@, self.value@)
    }
}

/// The headers of every request: the content type and the agent's token,
/// and the shared secret where there is one.
pub open spec fn header_list(config: ClawFoundryConfigView) -> Seq<(Seq<char>, Seq<char>)> {
    let always = seq![
        ("Content-Type"@, "application/json"@),
        ("X-Agent-Token"@, config.agent_token),
    ];
    if config.secret.len() == 0 {
        always
    } else {
        always.push(("X-Agent-Secret"@, config.secret))
    }
}

/// The headers of every request.
pub fn request_headers(config: &ClawFoundryConfig) -> (headers: Vec<Header>)
    ensures
        headers@.map_values(|h: Header| h@) == header_list(config@),
{
    let mut headers: Vec<Header> = Vec::new();
    headers.push(
        Header {
            name: String::from_str("Content-Type"),
            value: String::from_str("application/json"),
        },
    );
    headers.push(
        Header { name: String::from_str("X-Agent-Token"), value: config.agent_token.clone() },
    );
    if !config.secret.as_str().is_empty() {
        headers.push(
            Header { name: String::from_str("X-Agent-Secret"), value: config.secret.clone() },
        );
    }
    assert(headers@.map_values(|h: Header| h@) =~= header_list(config@));
    headers
}

/// The message with which an answer of the orchestrator is turned down:
/// the status as the transport words it, and the error that the answer
/// names, if it names one.
pub open spec fn refusal_text(status: Seq<char>, body: JsonShape) -> Seq<char> {
    "Orchestrator returned "@ + status + ": "@ + body.member("error"@).text_or("Unknown error"@)
}

/// Reads an answer of the orchestrator: the body where the status tells of
/// success, and a refusal otherwise.
pub fn read_response(success: bool, status: &str, body: Value) -> (read: Result<Value, String>)
    ensures
        match read {
            Ok(v) => success && v == body,
            Err(message) => !success && message@ == refusal_text(status@, shape(body)),
        },
{
    if success {
        Ok(body)
    } else {
        let mut message = String::from_str("Orchestrator returned ");
        message.append(status);
        message.append(": ");
        message.append(text_or(&body, "error", "Unknown error"));
        Err(message)
    }
}

/// What a tool hands back.
#[derive(Debug, Clone)]
pub struct ToolResult {
    pub success: bool,
    pub output: String,
    pub error: Option<String>,
}

/// A tool's result as plain values.
pub struct ToolResultView {
    pub success: bool,
    pub output: Seq<char>,
    pub error: Option<Seq<char>>,
}

impl View for ToolResult {
    type V = ToolResultView;

    open spec fn view(&self) -> ToolResultView {
        ToolResultView {
            success: self.success,
            output: self.output@,
            error: match self.error {
                Some(e) => Some(e@),
                None => None,
            },
        }
    }
}

/// A success that says `output`.
pub open spec fn success_with(output: Seq<char>) -> ToolResultView {
    ToolResultView { success: true, output, error: None }
}

/// A failure with the reason `error` and nothing else to say.
pub open spec fn failure_with(error: Seq<char>) -> ToolResultView {
    ToolResultView { success: false, output: Seq::<char>::empty(), error: Some(error) }
}

impl ToolResult {
    /// A success that says `output`.
    pub fn succeeded(output: String) -> (result: ToolResult)
        ensures
            result@ == success_with(output@),
    {
        ToolResult { success: true, output, error: None }
    }

    /// A failure with the reason `error`.
    pub fn failed(error: String) -> (result: ToolResult)
        ensures
            result@ == failure_with(error@),
    {
        ToolResult { success: false, output: String::new(), error: Some(error) }
    }

    /// A failure whose reason is `context` followed by `error`.
    pub fn failed_with_context(context: &str, error: &str) -> (result: ToolResult)
        ensures
            result@ == failure_with(context@ + error@),
    {
        let mut reason = String::from_str(context);
        reason.append(error);
        ToolResult::failed(reason)
    }
}

/// An exchange with the orchestrator as plain values: the contents of the
/// answer, or the message of a failure.
pub open spec fn outcome_view(outcome: Result<Value, String>) -> Result<JsonShape, Seq<char>> {
    match outcome {
        Ok(response) => Ok(shape(response)),
        Err(error) => Err(error@),
    }
}

/// What a tool makes of its arguments before anything is sent.
pub enum Prepared {
    /// Send this body to the orchestrator.
    Call(Value),
    /// The arguments lack something required: fail with this message.
    Reject(String),
    /// Nothing is to be sent: this is the result.
    Answer(ToolResult),
}

/// A preparation as plain values.
pub enum PreparedView {
    Call(JsonShape),
    Reject(Seq<char>),
    Answer(ToolResultView),
}

impl View for Prepared {
    type V = PreparedView;

    open spec fn view(&self) -> PreparedView {
        match self {
            Prepared::Call(body) => PreparedView::Call(shape(*body)),
            Prepared::Reject(message) => PreparedView::Reject(message@),
            Prepared::Answer(result) => PreparedView::Answer(result@),
        }
    }
}

} // verus!
