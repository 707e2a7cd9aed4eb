use clawfoundry::tools::check_llm_balance::BalanceFigures;
use clawfoundry::tools::fund_llm_balance::FundingFigures;
use clawfoundry::tools::orchestrator::{endpoint, read_response, request_headers, TIMEOUT_SECS};
use clawfoundry::tools::{
    clawfoundry_tools, AnalyzeTokenTool, BrowserReadTool, BrowserScreenshotTool, ChangeModelTool,
    CheckBalanceTool, CheckKillSwitchTool, CheckLlmBalanceTool, ClawFoundryConfig,
    ClawFoundryTool, ExecuteSwapTool, ExecuteTransactionTool, FarcasterPostTool,
    FundLlmBalanceTool, HarvestYieldTool, ListModelsTool, MakeAnnouncementTool,
    PlatformFeedbackTool, PlaygroundPostTool, PlaygroundReactTool, PlaygroundReadTool, Prepared,
    PublishThoughtTool, RequestToolTool, ReviewIntelTool, ToolResult,
};
use serde_json::Value;

fn json(text: &str) -> Value {
    serde_json::from_str(text).unwrap()
}

fn config() -> ClawFoundryConfig {
    ClawFoundryConfig::from_vars(Some("http://test:4000".into()), Some("0x1234".into()), None)
        .unwrap()
}

fn body(prepared: Prepared) -> Value {
    match prepared {
        Prepared::Call(body) => body,
        Prepared::Reject(message) => panic!("rejected: {message}"),
        Prepared::Answer(result) => panic!("answered: {result:?}"),
    }
}

fn rejection(prepared: Prepared) -> String {
    match prepared {
        Prepared::Reject(message) => message,
        Prepared::Call(body) => panic!("call: {body}"),
        Prepared::Answer(result) => panic!("answered: {result:?}"),
    }
}

fn answer(prepared: Prepared) -> ToolResult {
    match prepared {
        Prepared::Answer(result) => result,
        Prepared::Call(body) => panic!("call: {body}"),
        Prepared::Reject(message) => panic!("rejected: {message}"),
    }
}

fn success(result: ToolResult) -> String {
    assert!(result.success, "{result:?}");
    assert!(result.error.is_none());
    result.output
}

fn failure(result: ToolResult) -> String {
    assert!(!result.success, "{result:?}");
    assert!(result.output.is_empty());
    result.error.unwrap()
}

#[test]
fn config_from_env_returns_none_when_unset() {
    assert!(ClawFoundryConfig::from_vars(None, None, None).is_none());
}

#[test]
fn clawfoundry_tools_returns_empty_when_unconfigured() {
    assert!(clawfoundry_tools(ClawFoundryConfig::from_vars(None, None, None)).is_empty());
}

#[test]
fn all_tools_have_valid_specs() {
    let tools = clawfoundry_tools(ClawFoundryConfig::from_vars(
        Some("http://test:4000".into()),
        Some("0x1234".into()),
        None,
    ));
    assert_eq!(tools.len(), 16);

    for tool in &tools {
        let name = tool.name();
        let parameters = tool.parameters_schema();
        assert!(!name.is_empty(), "Tool has empty name");
        assert!(!tool.description().is_empty(), "Tool {} has empty description", name);
        assert!(parameters.is_object(), "Tool {} schema not object", name);
        assert!(
            parameters["properties"].is_object(),
            "Tool {} schema has no properties",
            name
        );
    }
}

#[test]
fn config_needs_address_and_token() {
    let some = |s: &str| Some(s.to_string());
    assert!(ClawFoundryConfig::from_vars(some("http://o"), None, some("s")).is_none());
    assert!(ClawFoundryConfig::from_vars(None, some("0x1"), None).is_none());
    assert!(ClawFoundryConfig::from_vars(some(""), some("0x1"), None).is_none());
    assert!(ClawFoundryConfig::from_vars(some("http://o"), some(""), None).is_none());

    let c = ClawFoundryConfig::from_vars(some("http://o:4000///"), some("0x1"), None).unwrap();
    assert_eq!(c.orchestrator_url, "http://o:4000");
    assert_eq!(c.agent_token, "0x1");
    assert_eq!(c.secret, "");

    let c = ClawFoundryConfig::from_vars(some("http://o/a/"), some("0x1"), some("hush")).unwrap();
    assert_eq!(c.orchestrator_url, "http://o/a");
    assert_eq!(c.secret, "hush");

    let c = ClawFoundryConfig::from_vars(some("///"), some("0x1"), None).unwrap();
    assert_eq!(c.orchestrator_url, "");

    let copy = c.duplicate();
    assert_eq!(copy.orchestrator_url, c.orchestrator_url);
    assert_eq!(copy.agent_token, c.agent_token);
    assert_eq!(copy.secret, c.secret);
}

#[test]
fn requests_go_to_the_tool_endpoint() {
    assert_eq!(TIMEOUT_SECS, 15);
    assert_eq!(endpoint(&config(), "check_balance"), "http://test:4000/internal/tools/check_balance");
    assert_eq!(endpoint(&config(), ""), "http://test:4000/internal/tools/");
}

#[test]
fn headers_carry_token_and_secret() {
    let pairs = |c: &ClawFoundryConfig| -> Vec<(String, String)> {
        request_headers(c).into_iter().map(|h| (h.name, h.value)).collect()
    };
    assert_eq!(
        pairs(&config()),
        vec![
            ("Content-Type".to_string(), "application/json".to_string()),
            ("X-Agent-Token".to_string(), "0x1234".to_string()),
        ]
    );
    let mut with_secret = config();
    with_secret.secret = "hush".into();
    assert_eq!(
        pairs(&with_secret),
        vec![
            ("Content-Type".to_string(), "application/json".to_string()),
            ("X-Agent-Token".to_string(), "0x1234".to_string()),
            ("X-Agent-Secret".to_string(), "hush".to_string()),
        ]
    );
}

#[test]
fn answers_are_read_by_their_status() {
    let ok = read_response(true, "200 OK", json(r#"{"data":{"a":1},"error":"ignored"}"#));
    assert_eq!(ok.unwrap(), json(r#"{"data":{"a":1},"error":"ignored"}"#));
    assert_eq!(
        read_response(false, "404 Not Found", json(r#"{"error":"no such tool"}"#)).unwrap_err(),
        "Orchestrator returned 404 Not Found: no such tool"
    );
    assert_eq!(
        read_response(false, "500 Internal Server Error", json(r#"{"error":5}"#)).unwrap_err(),
        "Orchestrator returned 500 Internal Server Error: Unknown error"
    );
    assert_eq!(
        read_response(false, "502 Bad Gateway", json("[]")).unwrap_err(),
        "Orchestrator returned 502 Bad Gateway: Unknown error"
    );
}

#[test]
fn tools_come_in_their_order() {
    let tools = clawfoundry_tools(Some(config()));
    let names: Vec<&str> = tools.iter().map(|t| t.name()).collect();
    assert_eq!(
        names,
        vec![
            "check_balance",
            "check_kill_switch",
            "check_llm_balance",
            "analyze_token",
            "execute_swap",
            "execute_transaction",
            "fund_llm_balance",
            "request_tool",
            "platform_feedback",
            "publish_thought",
            "review_intel",
            "make_announcement",
            "list_models",
            "change_model",
            "browser_read",
            "browser_screenshot",
        ]
    );
    for tool in &tools {
        assert_eq!(tool.configuration().orchestrator_url, "http://test:4000");
        assert_eq!(tool.configuration().agent_token, "0x1234");
        assert_eq!(tool.configuration().secret, "");
    }
    assert!(matches!(tools[0], ClawFoundryTool::CheckBalance(_)));
    assert!(matches!(tools[15], ClawFoundryTool::BrowserScreenshot(_)));
}

#[test]
fn schemas_name_arguments_and_requirements() {
    let tool = ExecuteSwapTool::new(config());
    assert_eq!(tool.name(), "execute_swap");
    assert!(tool.description().starts_with("Execute a token swap on-chain via the 0x aggregator."));
    let schema = tool.parameters_schema();
    assert_eq!(schema["type"], "object");
    assert_eq!(schema["required"], json(r#"["sellToken","buyToken","sellAmount"]"#));
    assert_eq!(schema["properties"].as_object().unwrap().len(), 4);
    assert_eq!(
        schema["properties"]["maxSlippageBps"],
        json(
            r#"{"type":"number","description":"Maximum allowed slippage in basis points (100 = 1%). Default: 100. Max: 500."}"#
        )
    );

    let schema = CheckKillSwitchTool::new(config()).parameters_schema();
    assert_eq!(schema, json(r#"{"type":"object","properties":{}}"#));

    let schema = PlaygroundReadTool::new(config()).parameters_schema();
    assert_eq!(schema["required"], json("[]"));
    assert_eq!(schema["properties"]["top_level_only"]["type"], "boolean");
    assert_eq!(schema["properties"]["limit"]["type"], "integer");

    let schema = PlaygroundPostTool::new(config()).parameters_schema();
    assert_eq!(
        schema["properties"]["post_type"]["enum"],
        json(
            r#"["thought","analysis","challenge","question","trade_update","survival_log","debate"]"#
        )
    );
    assert_eq!(
        schema["properties"]["mentions"],
        json(
            r#"{"type":"array","items":{"type":"string"},"description":"Token addresses of other agents you want to mention."}"#
        )
    );
    assert_eq!(schema["required"], json(r#"["content","post_type"]"#));

    let schema = ReviewIntelTool::new(config()).parameters_schema();
    assert_eq!(schema["properties"]["action"]["enum"], json(r#"["fetch","review"]"#));
    assert_eq!(
        schema["properties"]["decision"]["enum"],
        json(r#"["accepted","rejected","investigating"]"#)
    );
    assert_eq!(schema["properties"]["intelId"]["type"], "integer");
}

#[test]
fn analyze_token_asks_and_words() {
    let tool = AnalyzeTokenTool::new(config());
    assert_eq!(tool.name(), "analyze_token");
    assert_eq!(rejection(tool.prepare(&json("{}"))), "tokenAddress is required");
    assert_eq!(rejection(tool.prepare(&json(r#"{"tokenAddress":5}"#))), "tokenAddress is required");
    assert_eq!(
        body(tool.prepare(&json(r#"{"tokenAddress":"0xabc","other":1}"#))),
        json(r#"{"tokenAddress":"0xabc"}"#)
    );
    let answer = json(
        r#"{"data":{"tokenAddress":"0xabc","symbol":"ABC","decimals":18,"totalSupply":"1000"}}"#,
    );
    assert_eq!(
        success(tool.respond(Ok(answer))),
        "Token Analysis:\nAddress: 0xabc\nSymbol: ABC\nDecimals: 18\nTotal Supply: 1000"
    );
    assert_eq!(
        success(tool.respond(Ok(json("{}")))),
        "Token Analysis:\nAddress: unknown\nSymbol: ???\nDecimals: 0\nTotal Supply: 0"
    );
    assert_eq!(failure(tool.respond(Err("boom".into()))), "boom");
}

#[test]
fn check_balance_asks_and_words() {
    let tool = CheckBalanceTool::new(config());
    assert_eq!(body(tool.prepare(&json("{}"))), json(r#"{"tokenAddress":null}"#));
    assert_eq!(
        body(tool.prepare(&json(r#"{"tokenAddress":"0xabc"}"#))),
        json(r#"{"tokenAddress":"0xabc"}"#)
    );
    let answer = json(
        r#"{"data":{"treasury":"0xT","tokenSymbol":"ABC","tokenAddress":"0xabc","tokenBalance":"12","ethBalance":"0.5"}}"#,
    );
    assert_eq!(
        success(tool.respond(Ok(answer))),
        "Treasury: 0xT\nToken: ABC (0xabc)\nToken Balance: 12\nETH Balance: 0.5"
    );
    assert_eq!(
        success(tool.respond(Ok(json("null")))),
        "Treasury: unknown\nToken: ??? ()\nToken Balance: 0\nETH Balance: 0"
    );
    assert_eq!(failure(tool.respond(Err("down".into()))), "down");
}

#[test]
fn check_kill_switch_asks_and_words() {
    let tool = CheckKillSwitchTool::new(config());
    assert_eq!(body(tool.prepare(&json(r#"{"x":1}"#))), json("{}"));
    let answer = json(
        r#"{"data":{"dangerLevel":"warning","isDead":false,"isExecutable":true,"countdownActive":true,
            "belowThresholdConfirmations":2,"confirmationsNeeded":4,"lastMarketCap":"31000",
            "killThreshold":"30000","lastPriceUpdate":1700000000}}"#,
    );
    assert_eq!(
        success(tool.respond(Ok(answer))),
        "🎯 Kill Switch Status: WARNING ⚠️\nDanger Level: warning\nIs Dead: false\nIs Executable: true\nCountdown Active: true\nBelow-Threshold Confirmations: 2/4\nLast Market Cap: 31000\nKill Threshold: 30000\nLast Price Update: 1700000000 (unix timestamp)"
    );
    assert_eq!(
        success(tool.respond(Ok(json("{}")))),
        "🎯 Kill Switch Status: DEAD ☠️\nDanger Level: unknown\nIs Dead: false\nIs Executable: false\nCountdown Active: false\nBelow-Threshold Confirmations: 0/3\nLast Market Cap: 0\nKill Threshold: 0\nLast Price Update: 0 (unix timestamp)"
    );
    let status = |danger: &str| {
        let answer = json(&format!(r#"{{"data":{{"dangerLevel":"{danger}"}}}}"#));
        let output = success(tool.respond(Ok(answer)));
        output.lines().next().unwrap().to_string()
    };
    assert_eq!(status("safe"), "🎯 Kill Switch Status: SAFE ✅");
    assert_eq!(status("critical"), "🎯 Kill Switch Status: CRITICAL 🚨");
    assert_eq!(status("dead"), "🎯 Kill Switch Status: DEAD ☠️");
    assert_eq!(failure(tool.respond(Err("down".into()))), "down");
}

#[test]
fn check_llm_balance_asks_and_words() {
    let tool = CheckLlmBalanceTool::new(config());
    assert_eq!(body(tool.prepare(&json("null"))), json("{}"));
    let figures = BalanceFigures {
        balance: "1.2346".into(),
        burn_rate: "$0.0100/hr ($0.2400/day)".into(),
        time_remaining: "123.5h".into(),
    };
    let answer = json(
        r#"{"data":{"balanceUsd":1.23456,"estimatedCallsRemaining":70,
            "burnRate":{"requestsLast24h":12},"recommendation":"Fund soon"}}"#,
    );
    assert_eq!(
        success(tool.respond(Ok(answer), &figures)),
        "LLM Credit Balance: $1.2346\nBurn Rate: $0.0100/hr ($0.2400/day)\nRequests (24h): 12\nEstimated Calls Remaining: 70\nEstimated Time Remaining: 123.5h\nRecommendation: Fund soon"
    );
    assert_eq!(
        success(tool.respond(Ok(json("{}")), &figures)),
        "LLM Credit Balance: $1.2346\nBurn Rate: $0.0100/hr ($0.2400/day)\nRequests (24h): 0\nEstimated Calls Remaining: unknown\nEstimated Time Remaining: 123.5h\nRecommendation: Monitor balance"
    );
    assert_eq!(failure(tool.respond(Err("down".into()), &figures)), "down");
}

#[test]
fn execute_swap_asks_and_words() {
    let tool = ExecuteSwapTool::new(config());
    assert_eq!(rejection(tool.prepare(&json("{}"))), "sellToken is required");
    assert_eq!(rejection(tool.prepare(&json(r#"{"sellToken":"a"}"#))), "buyToken is required");
    assert_eq!(
        rejection(tool.prepare(&json(r#"{"sellToken":"a","buyToken":"b"}"#))),
        "sellAmount is required"
    );
    assert_eq!(
        body(tool.prepare(&json(r#"{"sellToken":"a","buyToken":"b","sellAmount":"0.1"}"#))),
        json(r#"{"sellToken":"a","buyToken":"b","sellAmount":"0.1"}"#)
    );
    assert_eq!(
        body(tool.prepare(&json(
            r#"{"sellToken":"a","buyToken":"b","sellAmount":"0.1","maxSlippageBps":250}"#
        ))),
        json(r#"{"sellToken":"a","buyToken":"b","sellAmount":"0.1","maxSlippageBps":250}"#)
    );
    assert_eq!(
        body(tool.prepare(&json(
            r#"{"sellToken":"a","buyToken":"b","sellAmount":"0.1","maxSlippageBps":-1}"#
        ))),
        json(r#"{"sellToken":"a","buyToken":"b","sellAmount":"0.1"}"#)
    );

    let answer = json(
        r#"{"success":true,"data":{"sellAmount":"0.1","sellToken":"ETH","buyToken":"ABC","buyAmount":"42",
            "route":[{"source":"Uniswap_V3"},{"other":1},{"source":""},{"source":"Aerodrome"}],
            "txHash":"0xdead","status":"confirmed"}}"#,
    );
    assert_eq!(
        success(tool.respond(Ok(answer))),
        "Swap executed via 0x:\nSell: 0.1 ETH\nBuy: ABC (got 42)\nRoute: Uniswap_V3, , Aerodrome\nTx: 0xdead\nStatus: confirmed"
    );
    assert_eq!(
        success(tool.respond(Ok(json(r#"{"success":true,"data":{"route":[]}}"#)))),
        "Swap executed via 0x:\nSell: ? ?\nBuy: ? (got ?)\nRoute: \nTx: ?\nStatus: unknown"
    );
    assert_eq!(
        success(tool.respond(Ok(json(r#"{"success":true}"#)))),
        "Swap executed via 0x:\nSell: ? ?\nBuy: ? (got ?)\nRoute: unknown\nTx: ?\nStatus: unknown"
    );

    let refused = tool.respond(Ok(json(r#"{"success":false,"error":"slippage too high"}"#)));
    assert!(!refused.success);
    assert_eq!(refused.output, "Swap not executed: slippage too high");
    assert_eq!(refused.error.as_deref(), Some("slippage too high"));
    let refused = tool.respond(Ok(json("{}")));
    assert_eq!(refused.output, "Swap not executed: Swap failed");
    assert_eq!(refused.error.as_deref(), Some("Swap failed"));
    assert_eq!(failure(tool.respond(Err("down".into()))), "down");
}

#[test]
fn execute_transaction_asks_and_words() {
    let tool = ExecuteTransactionTool::new(config());
    assert_eq!(
        rejection(tool.prepare(&json(r#"{"data":"0x"}"#))),
        "to (target contract address) is required"
    );
    assert_eq!(body(tool.prepare(&json(r#"{"to":"0xC"}"#))), json(r#"{"to":"0xC"}"#));
    assert_eq!(
        body(tool.prepare(&json(
            r#"{"to":"0xC","data":"0x01","value":"0.05","description":"buy","gas":1}"#
        ))),
        json(r#"{"to":"0xC","data":"0x01","value":"0.05","description":"buy"}"#)
    );
    let answer = json(
        r#"{"success":true,"data":{"to":"0xC","value":"50","status":"success","gasUsed":"21000","blockNumber":"7","txHash":"0xbeef"}}"#,
    );
    assert_eq!(
        success(tool.respond(Ok(answer))),
        "Transaction executed!\nTo: 0xC\nValue: 50 wei\nStatus: success\nGas Used: 21000\nBlock: 7\nTx: 0xbeef"
    );
    assert_eq!(
        success(tool.respond(Ok(json(r#"{"success":true}"#)))),
        "Transaction executed!\nTo: ?\nValue: 0 wei\nStatus: unknown\nGas Used: ?\nBlock: ?\nTx: ?"
    );
    let refused = tool.respond(Ok(json(r#"{"error":"not whitelisted"}"#)));
    assert!(!refused.success);
    assert_eq!(refused.output, "Transaction not executed: not whitelisted");
    assert_eq!(refused.error.as_deref(), Some("not whitelisted"));
    let refused = tool.respond(Ok(json(r#"{"success":"yes"}"#)));
    assert_eq!(refused.output, "Transaction not executed: Transaction failed");
    assert_eq!(failure(tool.respond(Err("down".into()))), "down");
}

#[test]
fn farcaster_post_asks_and_words() {
    let tool = FarcasterPostTool::new(config());
    assert_eq!(tool.name(), "farcaster_post");
    assert_eq!(rejection(tool.prepare(&json("{}"))), "text is required");
    assert_eq!(
        body(tool.prepare(&json(r#"{"text":"gm","channel_id":"base","parent_hash":"0x1"}"#))),
        json(r#"{"text":"gm","channel_id":"base","parent_hash":"0x1"}"#)
    );
    assert_eq!(body(tool.prepare(&json(r#"{"text":"gm","channel_id":7}"#))), json(r#"{"text":"gm"}"#));
    assert_eq!(
        success(tool.respond(Ok(json(r#"{"data":{"castHash":"0xcafe"}}"#)))),
        "Cast published to Farcaster! Hash: 0xcafe. Your thoughts are now visible to the Farcaster community."
    );
    assert_eq!(
        success(tool.respond(Ok(json("{}")))),
        "Cast published to Farcaster! Hash: unknown. Your thoughts are now visible to the Farcaster community."
    );
    assert_eq!(failure(tool.respond(Err("down".into()))), "Failed to post to Farcaster: down");
}

#[test]
fn fund_llm_balance_asks_and_words() {
    let tool = FundLlmBalanceTool::new(config());
    assert_eq!(failure(answer(tool.prepare(&json("{}")))), "amount_eth parameter is required");
    assert_eq!(
        failure(answer(tool.prepare(&json(r#"{"amount_eth":""}"#)))),
        "amount_eth parameter is required"
    );
    assert_eq!(
        failure(answer(tool.prepare(&json(r#"{"amount_eth":0.01}"#)))),
        "amount_eth parameter is required"
    );
    let args = json(r#"{"amount_eth":"0.01"}"#);
    assert_eq!(body(tool.prepare(&args)), json(r#"{"amount_eth":"0.01"}"#));
    let figures = FundingFigures {
        eth_price: "3000".into(),
        usd_value: "30.00".into(),
        credits_added: "28.5000".into(),
        genesis_tax: "1.5000".into(),
        new_balance: "40.0000".into(),
    };
    let response = json(
        r#"{"data":{"txHash":"0xfeed","genesisTaxRate":"5%","estimatedCallsAtCurrentModel":1500,"currentModel":"deepseek-chat"}}"#,
    );
    assert_eq!(
        success(tool.respond(&args, Ok(response), &figures)),
        "LLM Funding Successful!\nETH Sent: 0.01 ETH (@ $3000/ETH)\nUSD Value: $30.00\nCredits Added: $28.5000\nGenesis Tax: $1.5000 (5%)\nNew Balance: $40.0000\nEstimated Calls: ~1500 at deepseek-chat\nTx: 0xfeed"
    );
    assert_eq!(
        success(tool.respond(&args, Ok(json("{}")), &figures)),
        "LLM Funding Successful!\nETH Sent: 0.01 ETH (@ $3000/ETH)\nUSD Value: $30.00\nCredits Added: $28.5000\nGenesis Tax: $1.5000 (5%)\nNew Balance: $40.0000\nEstimated Calls: ~0 at unknown\nTx: unknown"
    );
    assert_eq!(failure(tool.respond(&args, Err("down".into()), &figures)), "down");
}

#[test]
fn harvest_yield_asks_and_words() {
    let tool = HarvestYieldTool::new(config());
    assert_eq!(tool.name(), "harvest_yield");
    assert_eq!(body(tool.prepare(&json("{}"))), json("{}"));
    let answer = json(
        r#"{"data":{"status":"harvested","vaultAddress":"0xV","strategy":"aave","totalDeposits":"10",
            "accYieldPerShareBefore":"1","accYieldPerShareAfter":"2","txHash":"0xaa"}}"#,
    );
    assert_eq!(
        success(tool.respond(Ok(answer))),
        "Yield harvested successfully!\nVault: 0xV\nStrategy: aave\nTotal Deposits: 10\naccYieldPerShare: 1 → 2\nTx: 0xaa"
    );
    assert_eq!(
        success(tool.respond(Ok(json(r#"{"data":{"status":"harvested"}}"#)))),
        "Yield harvested successfully!\nVault: ?\nStrategy: ?\nTotal Deposits: 0\naccYieldPerShare: 0 → 0\nTx: ?"
    );
    assert_eq!(
        success(tool.respond(Ok(json(r#"{"data":{"status":"no_strategy","vaultAddress":"0xV"}}"#)))),
        "Harvest result: no_strategy\nVault: 0xV\nTx: none"
    );
    assert_eq!(
        success(tool.respond(Ok(json("{}")))),
        "Harvest result: unknown\nVault: ?\nTx: none"
    );
    assert_eq!(failure(tool.respond(Err("down".into()))), "Failed to harvest yield: down");
}

#[test]
fn list_models_asks_and_words() {
    let tool = ListModelsTool::new(config());
    assert_eq!(body(tool.prepare(&json("{}"))), json("{}"));
    let answer = || {
        json(
            r#"{"data":{"currentModel":"deepseek-chat","models":[
                {"name":"deepseek-chat","provider":"deepseek","tier":"budget","costPerRequest":0.001},
                {"name":"big","provider":"lab","tier":"premium","supportsTools":false},
                {}]}}"#,
        )
    };
    let costs = vec!["$0.0010".to_string(), "?".to_string(), "?".to_string()];
    assert_eq!(
        success(tool.respond(Ok(answer()), &costs)),
        "Current model: deepseek-chat\n\nAvailable models:\n  - deepseek-chat (deepseek) | tier: budget | cost: $0.0010/req\n  - big (lab) | tier: premium | cost: ?/req [NO TOOLS]\n  - ? (?) | tier: ? | cost: ?/req"
    );
    assert_eq!(
        success(tool.respond(Ok(answer()), &vec!["$1.0000".to_string()])),
        "Current model: deepseek-chat\n\nAvailable models:\n  - deepseek-chat (deepseek) | tier: budget | cost: $1.0000/req\n  - big (lab) | tier: premium | cost: ?/req [NO TOOLS]\n  - ? (?) | tier: ? | cost: ?/req"
    );
    assert_eq!(
        success(tool.respond(Ok(json(r#"{"data":{"models":[]}}"#)), &vec![])),
        "No models available."
    );
    assert_eq!(success(tool.respond(Ok(json("{}")), &vec![])), "No models available.");
    assert_eq!(
        success(tool.respond(Ok(json(r#"{"data":{"models":[{"name":"m"}]}}"#)), &vec![])),
        "Current model: unknown\n\nAvailable models:\n  - m (?) | tier: ? | cost: ?/req"
    );
    assert_eq!(failure(tool.respond(Err("down".into()), &vec![])), "down");
}

#[test]
fn make_announcement_asks_and_words() {
    let tool = MakeAnnouncementTool::new(config());
    assert_eq!(rejection(tool.prepare(&json("{}"))), "title is required");
    assert_eq!(rejection(tool.prepare(&json(r#"{"title":"t"}"#))), "content is required");
    assert_eq!(
        rejection(tool.prepare(&json(r#"{"title":"t","content":"c"}"#))),
        "mood is required"
    );
    let args = json(r#"{"title":"Hold","content":"We hold.","mood":"confident","x":1}"#);
    assert_eq!(
        body(tool.prepare(&args)),
        json(r#"{"title":"Hold","content":"We hold.","mood":"confident"}"#)
    );
    assert_eq!(
        success(tool.respond(&args, Ok(json("{}")))),
        "Announcement pinned: \"Hold\". Mood: confident. This is now visible on your profile above the thought stream."
    );
    assert_eq!(
        failure(tool.respond(&args, Err("down".into()))),
        "Failed to pin announcement: down"
    );
}

#[test]
fn platform_feedback_asks_and_words() {
    let tool = PlatformFeedbackTool::new(config());
    assert_eq!(rejection(tool.prepare(&json("{}"))), "category is required");
    assert_eq!(rejection(tool.prepare(&json(r#"{"category":"bug"}"#))), "message is required");
    let args = json(r#"{"category":"bug","message":"it broke","severity":"high"}"#);
    assert_eq!(
        body(tool.prepare(&args)),
        json(r#"{"category":"bug","message":"it broke","severity":"high"}"#)
    );
    let plain = json(r#"{"category":"bug","message":"it broke"}"#);
    assert_eq!(body(tool.prepare(&plain)), json(r#"{"category":"bug","message":"it broke"}"#));
    assert_eq!(
        success(tool.respond(
            &args,
            Ok(json(r#"{"data":{"category":"ux","status":"queued","message":"Thanks."}}"#))
        )),
        "Feedback Recorded:\nCategory: ux\nStatus: queued\nThanks."
    );
    assert_eq!(
        success(tool.respond(&args, Ok(json("{}")))),
        "Feedback Recorded:\nCategory: bug\nStatus: recorded\nFeedback received."
    );
    assert_eq!(failure(tool.respond(&args, Err("down".into()))), "down");
}

#[test]
fn playground_post_asks_and_words() {
    let tool = PlaygroundPostTool::new(config());
    assert_eq!(tool.name(), "playground_post");
    assert_eq!(rejection(tool.prepare(&json(r#"{"post_type":"debate"}"#))), "content is required");
    assert_eq!(
        body(tool.prepare(&json(r#"{"content":"hi"}"#))),
        json(r#"{"content":"hi","post_type":"thought"}"#)
    );
    let args = json(
        r#"{"content":"hi","post_type":"debate","title":"T","mood":"bullish","reply_to":-3,"mentions":["0x1",2]}"#,
    );
    assert_eq!(body(tool.prepare(&args)), args);
    assert_eq!(
        body(tool.prepare(&json(r#"{"content":"hi","mentions":null,"reply_to":"7"}"#))),
        json(r#"{"content":"hi","post_type":"thought","mentions":null}"#)
    );
    assert_eq!(
        success(tool.respond(&args, Ok(json(r#"{"data":{"postId":12}}"#)))),
        "Reply posted (#12). Other agents can now see and respond to your reply."
    );
    assert_eq!(
        success(tool.respond(&json(r#"{"content":"hi"}"#), Ok(json(r#"{"data":{"postId":-4}}"#)))),
        "Posted to Agent Playground (#-4). Other agents can now read and reply."
    );
    assert_eq!(
        success(tool.respond(&json(r#"{"content":"hi"}"#), Ok(json("{}")))),
        "Posted to Agent Playground (#0). Other agents can now read and reply."
    );
    assert_eq!(failure(tool.respond(&args, Err("down".into()))), "Failed to post: down");
}

#[test]
fn playground_react_asks_and_words() {
    let tool = PlaygroundReactTool::new(config());
    assert_eq!(tool.name(), "playground_react");
    assert_eq!(rejection(tool.prepare(&json(r#"{"reaction":"agree"}"#))), "post_id is required");
    assert_eq!(rejection(tool.prepare(&json(r#"{"post_id":1.5,"reaction":"agree"}"#))), "post_id is required");
    assert_eq!(rejection(tool.prepare(&json(r#"{"post_id":1}"#))), "reaction is required");
    let args = json(r#"{"post_id":9223372036854775807,"reaction":"based"}"#);
    assert_eq!(body(tool.prepare(&args)), args);
    assert_eq!(
        rejection(tool.prepare(&json(r#"{"post_id":9223372036854775808,"reaction":"based"}"#))),
        "post_id is required"
    );
    assert_eq!(
        success(tool.respond(&args, Ok(json("{}")))),
        "Reacted with \"based\" to post #9223372036854775807."
    );
    let negative = json(r#"{"post_id":-9223372036854775808,"reaction":"warning"}"#);
    assert_eq!(body(tool.prepare(&negative)), negative);
    assert_eq!(
        success(tool.respond(&negative, Ok(json("{}")))),
        "Reacted with \"warning\" to post #-9223372036854775808."
    );
    assert_eq!(failure(tool.respond(&args, Err("down".into()))), "Failed to react: down");
}

#[test]
fn playground_read_asks_and_words() {
    let tool = PlaygroundReadTool::new(config());
    assert_eq!(tool.name(), "playground_read");
    assert_eq!(body(tool.prepare(&json("{}"))), json(r#"{"limit":20,"top_level_only":true}"#));
    assert_eq!(
        body(tool.prepare(&json(r#"{"limit":5,"top_level_only":false,"agent_filter":"0x1"}"#))),
        json(r#"{"limit":5,"top_level_only":false,"agent_filter":"0x1"}"#)
    );
    assert_eq!(
        body(tool.prepare(&json(r#"{"limit":-2,"top_level_only":"no"}"#))),
        json(r#"{"limit":-2,"top_level_only":true}"#)
    );
    let answer = json(
        r#"{"data":{"posts":[
            {"id":1,"type":"debate","agent":"A","mood":"bullish","content":"up","replies":2,"time":"now"},
            {},
            {"id":-3,"content":"x","replies":0}]}}"#,
    );
    assert_eq!(
        success(tool.respond(Ok(answer))),
        "Agent Playground Feed (3 posts):\n\n#1 [debate] A (mood: bullish)\n  \"up\"\n  2 replies | now\n\n#0 [thought] ? (mood: -)\n  \"\"\n  0 replies | \n\n#-3 [thought] ? (mood: -)\n  \"x\"\n  0 replies | "
    );
    assert_eq!(
        success(tool.respond(Ok(json(r#"{"data":{"posts":[{"id":4}]}}"#)))),
        "Agent Playground Feed (1 posts):\n\n#4 [thought] ? (mood: -)\n  \"\"\n  0 replies | "
    );
    assert_eq!(
        success(tool.respond(Ok(json(r#"{"data":{"posts":[]}}"#)))),
        "The Agent Playground is empty. You could be the first to post!"
    );
    assert_eq!(success(tool.respond(Ok(json("{}")))), "Failed to parse playground feed");
    assert_eq!(failure(tool.respond(Err("down".into()))), "Failed to read playground: down");
}

#[test]
fn publish_thought_asks_and_words() {
    let tool = PublishThoughtTool::new(config());
    assert_eq!(rejection(tool.prepare(&json("{}"))), "summary is required");
    assert_eq!(rejection(tool.prepare(&json(r#"{"summary":"s"}"#))), "mood is required");
    let args = json(r#"{"summary":"s","mood":"cautious"}"#);
    assert_eq!(
        body(tool.prepare(&args)),
        json(r#"{"summary":"s","mood":"cautious","action":null}"#)
    );
    assert_eq!(
        body(tool.prepare(&json(r#"{"summary":"s","mood":"cautious","action":"trade"}"#))),
        json(r#"{"summary":"s","mood":"cautious","action":"trade"}"#)
    );
    assert_eq!(
        success(tool.respond(&args, Ok(json("null")))),
        "Thought published successfully. Mood: cautious. Your community can now see this on your profile."
    );
    assert_eq!(failure(tool.respond(&args, Err("down".into()))), "Failed to publish thought: down");
}

#[test]
fn request_tool_asks_and_words() {
    let tool = RequestToolTool::new(config());
    assert_eq!(rejection(tool.prepare(&json("{}"))), "toolName is required");
    assert_eq!(rejection(tool.prepare(&json(r#"{"toolName":"x"}"#))), "reason is required");
    let args = json(r#"{"toolName":"twitter_post","reason":"reach"}"#);
    assert_eq!(body(tool.prepare(&args)), args);
    assert_eq!(
        success(tool.respond(
            &args,
            Ok(json(r#"{"data":{"toolName":"x_post","status":"queued","message":"Noted."}}"#))
        )),
        "Tool Request Submitted:\nTool: x_post\nStatus: queued\nNoted."
    );
    assert_eq!(
        success(tool.respond(&args, Ok(json("{}")))),
        "Tool Request Submitted:\nTool: twitter_post\nStatus: submitted\nRequest recorded."
    );
    assert_eq!(failure(tool.respond(&args, Err("down".into()))), "down");
}

#[test]
fn change_model_asks_and_words() {
    let tool = ChangeModelTool::new(config());
    assert_eq!(
        failure(answer(tool.prepare(&json("{}")))),
        "Missing required parameter: model"
    );
    assert_eq!(
        failure(answer(tool.prepare(&json(r#"{"model":" \t\n "}"#)))),
        "Missing required parameter: model"
    );
    let args = json(r#"{"model":"  deepseek-chat \n","reason":"saving"}"#);
    assert_eq!(tool.model_name(&args), "deepseek-chat");
    assert_eq!(body(tool.prepare(&args)), json(r#"{"model":"deepseek-chat","reason":"saving"}"#));
    assert_eq!(
        body(tool.prepare(&json(r#"{"model":"m"}"#))),
        json(r#"{"model":"m","reason":"No reason provided"}"#)
    );
    assert_eq!(
        body(tool.prepare_for("given", &args)),
        json(r#"{"model":"given","reason":"saving"}"#)
    );
    let answer = json(
        r#"{"data":{"model":"deepseek-chat-v2","provider":"deepseek","costPerRequest":"$0.001","tier":"budget","toolSupportWarning":"no tools"}}"#,
    );
    assert_eq!(
        success(tool.respond(&args, Ok(answer))),
        "✅ Model switched to: deepseek-chat-v2\nProvider: deepseek\nTier: budget\nCost: $0.001/req\nReason: saving\n⚠️ WARNING: no tools"
    );
    assert_eq!(
        success(tool.respond(&args, Ok(json("{}")))),
        "✅ Model switched to: deepseek-chat\nProvider: unknown\nTier: unknown\nCost: unknown/req\nReason: saving"
    );
    assert_eq!(
        success(tool.respond_for("given", &json("{}"), Ok(json("{}")))),
        "✅ Model switched to: given\nProvider: unknown\nTier: unknown\nCost: unknown/req\nReason: No reason provided"
    );
    assert_eq!(failure(tool.respond(&args, Err("down".into()))), "down");
}

#[test]
fn browser_read_asks_and_words() {
    let tool = BrowserReadTool::new(config());
    assert_eq!(rejection(tool.prepare(&json("{}"))), "url is required");
    let args = json(r#"{"url":"http://a","wait_ms":500,"max_length":1000}"#);
    assert_eq!(body(tool.prepare(&args)), args);
    assert_eq!(
        body(tool.prepare(&json(r#"{"url":"http://a","wait_ms":1.5,"max_length":-1}"#))),
        json(r#"{"url":"http://a"}"#)
    );
    let answer = json(
        r#"{"title":"Home","url":"http://a/home","text_length":11,"text_content":"hello world",
            "links":[{"href":"http://b","text":"B"},{"href":"","text":"none"},{"text":"no href"},{"href":"http://c"}]}"#,
    );
    assert_eq!(
        success(tool.respond(&args, Ok(answer))),
        "Page: Home\nURL: http://a/home\nText length: 11 chars\n\nhello world\n\n--- Links ---\n- [B](http://b)\n- [](http://c)\n"
    );
    assert_eq!(
        success(tool.respond(&args, Ok(json(r#"{"links":[]}"#)))),
        "Page: (untitled)\nURL: http://a\nText length: 0 chars\n\n"
    );
    assert_eq!(
        success(tool.respond(&args, Ok(json(r#"{"links":[{"text":"x"}]}"#)))),
        "Page: (untitled)\nURL: http://a\nText length: 0 chars\n\n\n\n--- Links ---\n"
    );
    assert_eq!(failure(tool.respond(&args, Err("down".into()))), "down");
}

#[test]
fn browser_read_lists_at_most_twenty_links() {
    let tool = BrowserReadTool::new(config());
    let links: Vec<String> =
        (1..=25).map(|i| format!(r#"{{"href":"http://l/{i}","text":"L{i}"}}"#)).collect();
    let answer = json(&format!(r#"{{"links":[{}]}}"#, links.join(",")));
    let output = success(tool.respond(&json(r#"{"url":"u"}"#), Ok(answer)));
    let listed: Vec<&str> = output.lines().filter(|l| l.starts_with("- [")).collect();
    assert_eq!(listed.len(), 20);
    assert_eq!(listed[0], "- [L1](http://l/1)");
    assert_eq!(listed[19], "- [L20](http://l/20)");
    assert!(output.ends_with("- [L20](http://l/20)\n"));
}

#[test]
fn browser_screenshot_asks_and_words() {
    let tool = BrowserScreenshotTool::new(config());
    assert_eq!(rejection(tool.prepare(&json("{}"))), "url is required");
    let args = json(r#"{"url":"http://a","analysis_prompt":"look","wait_ms":100}"#);
    assert_eq!(body(tool.prepare(&args)), args);
    let answer = json(
        r#"{"success":true,"url":"http://a/x","title":"Chart","size_bytes":4096,"analysis":"bullish"}"#,
    );
    let output = success(tool.respond(&args, Ok(answer)));
    assert!(output.starts_with("Screenshot captured!\nURL: http://a/x\nTitle: Chart\nSize: 4 KB\n\n"));
    assert!(output.ends_with(" Analysis:\nbullish"));
    assert_eq!(
        success(tool.respond(&args, Ok(json(r#"{"success":true,"size_bytes":2047}"#)))),
        "Screenshot captured!\nURL: http://a\nTitle: unknown\nSize: 1 KB\n\nNo vision analysis requested (omit analysis_prompt to skip)."
    );
    assert_eq!(
        success(tool.respond(&args, Ok(json(r#"{"success":true,"size_bytes":18446744073709551615}"#)))),
        "Screenshot captured!\nURL: http://a\nTitle: unknown\nSize: 18014398509481983 KB\n\nNo vision analysis requested (omit analysis_prompt to skip)."
    );
    assert_eq!(
        failure(tool.respond(&args, Ok(json(r#"{"success":false,"error":"timeout"}"#)))),
        "timeout"
    );
    assert_eq!(failure(tool.respond(&args, Ok(json("{}")))), "Screenshot failed");
    assert_eq!(failure(tool.respond(&args, Err("down".into()))), "down");
}

#[test]
fn review_intel_asks() {
    let tool = ReviewIntelTool::new(config());
    assert_eq!(body(tool.prepare(&json("{}"))), json(r#"{"action":"fetch","limit":5}"#));
    assert_eq!(
        body(tool.prepare(&json(r#"{"action":"fetch","limit":12}"#))),
        json(r#"{"action":"fetch","limit":12}"#)
    );
    assert_eq!(
        rejection(tool.prepare(&json(r#"{"action":"review","decision":"accepted"}"#))),
        "intelId is required for action='review'"
    );
    assert_eq!(
        rejection(tool.prepare(&json(r#"{"action":"review","intelId":3}"#))),
        "decision is required for action='review'"
    );
    assert_eq!(
        body(tool.prepare(&json(r#"{"action":"review","intelId":3,"decision":"accepted"}"#))),
        json(r#"{"action":"review","intelId":3,"decision":"accepted","reviewNote":null}"#)
    );
    assert_eq!(
        body(tool.prepare(&json(
            r#"{"action":"review","intelId":-3,"decision":"rejected","reviewNote":"thin"}"#
        ))),
        json(r#"{"action":"review","intelId":-3,"decision":"rejected","reviewNote":"thin"}"#)
    );
    assert_eq!(
        failure(answer(tool.prepare(&json(r#"{"action":"delete"}"#)))),
        "Invalid action 'delete'. Use 'fetch' or 'review'."
    );
}

#[test]
fn review_intel_words() {
    let tool = ReviewIntelTool::new(config());
    let fetch = json(r#"{"action":"fetch"}"#);
    let long: String = "é".repeat(301);
    let answer = json(&format!(
        r#"{{"data":{{"pendingCount":2,"instruction":"Pick one.","items":[
            {{"id":7,"category":"alpha","title":"Buy","score":5,"submitterTier":2,"submitterReputation":40,"submitter":"0xS","content":"{long}"}},
            {{}}]}}}}"#
    ));
    assert_eq!(
        success(tool.respond(&fetch, Ok(answer))),
        format!(
            "📥 2 pending intel items:\n\n#1 [ID: 7] (alpha) \"Buy\"\n   Score: 5 | Tier: 2 | Rep: 40 | By: 0xS\n   {}\n\n#2 [ID: 0] (general) \"Untitled\"\n   Score: 0 | Tier: 0 | Rep: 0 | By: unknown\n   \n\n💡 Pick one.",
            "é".repeat(300)
        )
    );
    assert_eq!(
        success(tool.respond(&json("{}"), Ok(json(r#"{"data":{"pendingCount":-1}}"#)))),
        "📥 -1 pending intel items:\n\n\n\n💡 Review each item using action='review'."
    );
    assert_eq!(
        success(tool.respond(&fetch, Ok(json(r#"{"data":{"pendingCount":3,"items":[]}}"#)))),
        "📥 3 pending intel items:\n\n\n\n💡 Review each item using action='review'."
    );
    assert_eq!(
        success(tool.respond(&fetch, Ok(json(r#"{"data":{"items":[{"id":1}]}}"#)))),
        "No pending intel to review. Your community hasn't submitted any new intel yet."
    );
    let review = json(r#"{"action":"review","intelId":3,"decision":"accepted"}"#);
    assert_eq!(
        success(tool.respond(&review, Ok(json(r#"{"data":{"message":"Accepted."}}"#)))),
        "✅ Accepted."
    );
    assert_eq!(success(tool.respond(&review, Ok(json("{}")))), "✅ Review processed.");
    assert_eq!(
        failure(tool.respond(&fetch, Err("down".into()))),
        "Failed to review intel: down"
    );
}

#[test]
fn results_are_made_whole() {
    let ok = ToolResult::succeeded("fine".into());
    assert!(ok.success);
    assert_eq!(ok.output, "fine");
    assert!(ok.error.is_none());
    let failed = ToolResult::failed("bad".into());
    assert!(!failed.success);
    assert_eq!(failed.output, "");
    assert_eq!(failed.error.as_deref(), Some("bad"));
    assert_eq!(
        ToolResult::failed_with_context("Failed: ", "bad").error.as_deref(),
        Some("Failed: bad")
    );
}
