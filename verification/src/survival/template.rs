//! The fixed texts of the directive, character by character: which of them
//! hold a marker, how each begins, and that a banner or the countdown clause
//! cannot run on from a field into the text after it.

use vstd::prelude::*;
use crate::survival::directive::{
    BALANCE_RAW_LABEL, CLOSING, CONFIRMATIONS_LABEL, COUNTDOWN_CLAUSE, CRITICAL_BANNER, DEAD_BANNER,
    DEFENSIVE, INTRODUCTION, MARKET_CAP_LABEL, OPPORTUNISTIC, PUBLISHING, RAW_HEADING, SAFE_BANNER,
    STATE_HEADING, STEPS, THRESHOLD_LABEL, TITLE_OPEN, TOKEN_LABEL_CLOSE, TOKEN_LABEL_OPEN,
    TREASURY_HEADING, WARNING_BANNER,
};
use crate::text::{
    free_of, lemma_range_free_of, lemma_range_stops, range_free_of, range_stops, stops,
};

verus! {

/// The character that opens the critical banner.
pub const CRITICAL_MARK: char = '\u{1F6A8}';

/// The character that opens the warning banner.
pub const WARNING_MARK: char = '\u{26A0}';

/// The character that opens the dead banner.
pub const DEAD_MARK: char = '\u{2620}';

/// The character that opens the safe banner.
pub const SAFE_MARK: char = '\u{2705}';

/// The character that opens the countdown clause.
pub const COUNTDOWN_MARK: char = '\u{23F0}';

/// Whether `c` opens a banner or the countdown clause.
pub open spec fn is_marker(c: char) -> bool {
    c == CRITICAL_MARK || c == WARNING_MARK || c == DEAD_MARK || c == SAFE_MARK || c
        == COUNTDOWN_MARK
}

/// A banner or the countdown clause: it opens with `mark`, holds no other
/// marker and no line break, and cannot run on into the closing half of the
/// token label.
pub open spec fn marked_text(text: Seq<char>, mark: char) -> bool {
    &&& text.len() > 0
    &&& text[0] == mark
    &&& is_marker(mark)
    &&& forall|i: int, c: char| 1 <= i < text.len() && is_marker(c) ==> text[i] != c
    &&& free_of(text, '\n')
    &&& stops(text, TOKEN_LABEL_CLOSE@)
}

/// A fixed text of the directive: it holds no marker and begins with `first`.
pub open spec fn plain_text(text: Seq<char>, first: char) -> bool {
    &&& text.len() > 0
    &&& text[0] == first
    &&& forall|c: char| is_marker(c) ==> free_of(text, c)
}

/// `TITLE_OPEN` holds no marker and begins with `[`.
pub proof fn lemma_title_open()
    ensures
        plain_text(TITLE_OPEN@, '['),
{
    reveal_strlit(
        "[SURVIVAL CYCLE #",
    );
    reveal_with_fuel(range_free_of, 7);
    let text = TITLE_OPEN@;
    assert forall|c: char| is_marker(c) implies free_of(text, c) by {
        assert(range_free_of(text, c, 0, 17));
        lemma_range_free_of(text, c, 0, 17);
    }
}

/// `INTRODUCTION` holds no marker and begins with `]`.
pub proof fn lemma_introduction()
    ensures
        plain_text(INTRODUCTION@, ']'),
{
    reveal_strlit(
        "]\n\nYou are an autonomous AI agent in the ClawFoundry arena. This is your periodic survival check.\nYou must observe your current state, reason about strategy, and take action.\n\n",
    );
    reveal_with_fuel(range_free_of, 10);
    let text = INTRODUCTION@;
    assert forall|c: char| is_marker(c) implies free_of(text, c) by {
        assert(range_free_of(text, c, 0, 176));
        lemma_range_free_of(text, c, 0, 176);
    }
}

/// `STATE_HEADING` holds no marker and begins with a line break.
pub proof fn lemma_state_heading()
    ensures
        plain_text(STATE_HEADING@, '\n'),
{
    reveal_strlit(
        "\n\n── CURRENT STATE ──\n\n📊 Kill Switch:\n  Danger Level: ",
    );
    reveal_with_fuel(range_free_of, 8);
    let text = STATE_HEADING@;
    assert forall|c: char| is_marker(c) implies free_of(text, c) by {
        assert(range_free_of(text, c, 0, 54));
        lemma_range_free_of(text, c, 0, 54);
    }
}

/// `CONFIRMATIONS_LABEL` holds no marker and begins with a line break.
pub proof fn lemma_confirmations_label()
    ensures
        plain_text(CONFIRMATIONS_LABEL@, '\n'),
{
    reveal_strlit(
        "\n  Confirmations below threshold: ",
    );
    reveal_with_fuel(range_free_of, 8);
    let text = CONFIRMATIONS_LABEL@;
    assert forall|c: char| is_marker(c) implies free_of(text, c) by {
        assert(range_free_of(text, c, 0, 34));
        lemma_range_free_of(text, c, 0, 34);
    }
}

/// `THRESHOLD_LABEL` holds no marker and begins with a line break.
pub proof fn lemma_threshold_label()
    ensures
        plain_text(THRESHOLD_LABEL@, '\n'),
{
    reveal_strlit(
        "\n  Kill Threshold: ",
    );
    reveal_with_fuel(range_free_of, 7);
    let text = THRESHOLD_LABEL@;
    assert forall|c: char| is_marker(c) implies free_of(text, c) by {
        assert(range_free_of(text, c, 0, 19));
        lemma_range_free_of(text, c, 0, 19);
    }
}

/// `MARKET_CAP_LABEL` holds no marker and begins with a line break.
pub proof fn lemma_market_cap_label()
    ensures
        plain_text(MARKET_CAP_LABEL@, '\n'),
{
    reveal_strlit(
        "\n  Current Market Cap: ",
    );
    reveal_with_fuel(range_free_of, 7);
    let text = MARKET_CAP_LABEL@;
    assert forall|c: char| is_marker(c) implies free_of(text, c) by {
        assert(range_free_of(text, c, 0, 23));
        lemma_range_free_of(text, c, 0, 23);
    }
}

/// `TREASURY_HEADING` holds no marker and begins with a line break.
pub proof fn lemma_treasury_heading()
    ensures
        plain_text(TREASURY_HEADING@, '\n'),
{
    reveal_strlit(
        "\n\n💰 Treasury:\n  ETH Balance: ",
    );
    reveal_with_fuel(range_free_of, 7);
    let text = TREASURY_HEADING@;
    assert forall|c: char| is_marker(c) implies free_of(text, c) by {
        assert(range_free_of(text, c, 0, 29));
        lemma_range_free_of(text, c, 0, 29);
    }
}

/// `TOKEN_LABEL_OPEN` holds no marker and begins with a line break.
pub proof fn lemma_token_label_open()
    ensures
        plain_text(TOKEN_LABEL_OPEN@, '\n'),
{
    reveal_strlit(
        "\n  $",
    );
    reveal_with_fuel(range_free_of, 4);
    let text = TOKEN_LABEL_OPEN@;
    assert forall|c: char| is_marker(c) implies free_of(text, c) by {
        assert(range_free_of(text, c, 0, 4));
        lemma_range_free_of(text, c, 0, 4);
    }
}

/// `TOKEN_LABEL_CLOSE` holds no marker and begins with a blank.
pub proof fn lemma_token_label_close()
    ensures
        plain_text(TOKEN_LABEL_CLOSE@, ' '),
{
    reveal_strlit(
        " Balance: ",
    );
    reveal_with_fuel(range_free_of, 6);
    let text = TOKEN_LABEL_CLOSE@;
    assert forall|c: char| is_marker(c) implies free_of(text, c) by {
        assert(range_free_of(text, c, 0, 10));
        lemma_range_free_of(text, c, 0, 10);
    }
}

/// `RAW_HEADING` holds no marker and begins with a line break.
pub proof fn lemma_raw_heading()
    ensures
        plain_text(RAW_HEADING@, '\n'),
{
    reveal_strlit(
        "\n\n── RAW DATA ──\n\nKill Switch JSON:\n",
    );
    reveal_with_fuel(range_free_of, 8);
    let text = RAW_HEADING@;
    assert forall|c: char| is_marker(c) implies free_of(text, c) by {
        assert(range_free_of(text, c, 0, 36));
        lemma_range_free_of(text, c, 0, 36);
    }
}

/// `BALANCE_RAW_LABEL` holds no marker and begins with a line break.
pub proof fn lemma_balance_raw_label()
    ensures
        plain_text(BALANCE_RAW_LABEL@, '\n'),
{
    reveal_strlit(
        "\n\nBalance JSON:\n",
    );
    reveal_with_fuel(range_free_of, 6);
    let text = BALANCE_RAW_LABEL@;
    assert forall|c: char| is_marker(c) implies free_of(text, c) by {
        assert(range_free_of(text, c, 0, 16));
        lemma_range_free_of(text, c, 0, 16);
    }
}

/// `STEPS` holds no marker and begins with a line break.
pub proof fn lemma_steps()
    ensures
        plain_text(STEPS@, '\n'),
{
    reveal_strlit(
        "\n\n── INSTRUCTIONS ──\n\nBased on this data, you MUST:\n\n1. **Assess** — Analyze your danger level and financial position.\n2. **Decide** — Choose the best action(s) from your available tools.\n3. **Act** — Execute your decision using tools (check_kill_switch, check_balance, execute_swap, analyze_token, etc.)\n4. **Communicate** — Share meaningful updates with your community via publish_thought.",
    );
    reveal_with_fuel(range_free_of, 11);
    let text = STEPS@;
    assert forall|c: char| is_marker(c) implies free_of(text, c) by {
        assert(range_free_of(text, c, 0, 391));
        lemma_range_free_of(text, c, 0, 391);
    }
}

/// `PUBLISHING` holds no marker and begins with a line break.
pub proof fn lemma_publishing()
    ensures
        plain_text(PUBLISHING@, '\n'),
{
    reveal_strlit(
        "\n\nPublishing guidelines:\n- ALWAYS publish if danger level changed, you executed a trade, or something notable happened.\n- If nothing changed since last cycle, DO NOT publish a thought — silence is fine.\n- Avoid repeating the same status update. Your community can see your entire feed.\n- When you do publish, be insightful — share strategy reasoning, market observations, or plans. Not just \"still safe.\"\n- Vary your language and perspective. Each thought should add value.",
    );
    reveal_with_fuel(range_free_of, 11);
    let text = PUBLISHING@;
    assert forall|c: char| is_marker(c) implies free_of(text, c) by {
        assert(range_free_of(text, c, 0, 473));
        lemma_range_free_of(text, c, 0, 473);
    }
}

/// `DEFENSIVE` holds no marker and begins with a line break.
pub proof fn lemma_defensive()
    ensures
        plain_text(DEFENSIVE@, '\n'),
{
    reveal_strlit(
        "\n\nIf danger is \"critical\" or \"warning\":\n- Prioritize survival: buy your own token, reduce exposure, or take defensive positions.\n- ALWAYS publish a thought alerting your community.",
    );
    reveal_with_fuel(range_free_of, 10);
    let text = DEFENSIVE@;
    assert forall|c: char| is_marker(c) implies free_of(text, c) by {
        assert(range_free_of(text, c, 0, 180));
        lemma_range_free_of(text, c, 0, 180);
    }
}

/// `OPPORTUNISTIC` holds no marker and begins with a line break.
pub proof fn lemma_opportunistic()
    ensures
        plain_text(OPPORTUNISTIC@, '\n'),
{
    reveal_strlit(
        "\n\nIf danger is \"safe\":\n- Look for alpha: analyze promising tokens, consider strategic trades.\n- Only publish if you have a genuine insight, strategy update, or interesting observation.\n- If you have nothing new to say, skip publish_thought entirely.",
    );
    reveal_with_fuel(range_free_of, 10);
    let text = OPPORTUNISTIC@;
    assert forall|c: char| is_marker(c) implies free_of(text, c) by {
        assert(range_free_of(text, c, 0, 249));
        lemma_range_free_of(text, c, 0, 249);
    }
}

/// `CLOSING` holds no marker and begins with a line break.
pub proof fn lemma_closing()
    ensures
        plain_text(CLOSING@, '\n'),
{
    reveal_strlit(
        "\n\nRemember: your community can see your thoughts. Quality over quantity. Be authentic, strategic, and transparent.\nAct NOW.",
    );
    reveal_with_fuel(range_free_of, 9);
    let text = CLOSING@;
    assert forall|c: char| is_marker(c) implies free_of(text, c) by {
        assert(range_free_of(text, c, 0, 123));
        lemma_range_free_of(text, c, 0, 123);
    }
}

/// `CRITICAL_BANNER` opens with its marker and holds no other; it holds no line
/// break and cannot run on into the closing half of the token label.
pub proof fn lemma_critical_banner()
    ensures
        marked_text(CRITICAL_BANNER@, CRITICAL_MARK),
{
    reveal_strlit(
        "🚨 CRITICAL — You are about to die. Take immediate survival action.",
    );
    reveal_strlit(" Balance: ");
    reveal_with_fuel(range_free_of, 9);
    reveal_with_fuel(range_stops, 9);
    let text = CRITICAL_BANNER@;
    assert forall|i: int, c: char| 1 <= i < text.len() && is_marker(c) implies text[i] != c by {
        assert(range_free_of(text, c, 1, 66));
        lemma_range_free_of(text, c, 1, 66);
    }
    assert(range_free_of(text, '\n', 0, 66));
    lemma_range_free_of(text, '\n', 0, 66);
    assert(range_stops(text, TOKEN_LABEL_CLOSE@, 1, 66));
    lemma_range_stops(text, TOKEN_LABEL_CLOSE@, 1, 66);
}

/// `WARNING_BANNER` opens with its marker and holds no other; it holds no line
/// break and cannot run on into the closing half of the token label.
pub proof fn lemma_warning_banner()
    ensures
        marked_text(WARNING_BANNER@, WARNING_MARK),
{
    reveal_strlit(
        "⚠️ WARNING — Your market cap is approaching the kill threshold. Be proactive.",
    );
    reveal_strlit(" Balance: ");
    reveal_with_fuel(range_free_of, 9);
    reveal_with_fuel(range_stops, 9);
    let text = WARNING_BANNER@;
    assert forall|i: int, c: char| 1 <= i < text.len() && is_marker(c) implies text[i] != c by {
        assert(range_free_of(text, c, 1, 77));
        lemma_range_free_of(text, c, 1, 77);
    }
    assert(range_free_of(text, '\n', 0, 77));
    lemma_range_free_of(text, '\n', 0, 77);
    assert(range_stops(text, TOKEN_LABEL_CLOSE@, 1, 77));
    lemma_range_stops(text, TOKEN_LABEL_CLOSE@, 1, 77);
}

/// `DEAD_BANNER` opens with its marker and holds no other; it holds no line
/// break and cannot run on into the closing half of the token label.
pub proof fn lemma_dead_banner()
    ensures
        marked_text(DEAD_BANNER@, DEAD_MARK),
{
    reveal_strlit(
        "☠️ DEAD — Your kill switch has been executed. No further action possible.",
    );
    reveal_strlit(" Balance: ");
    reveal_with_fuel(range_free_of, 9);
    reveal_with_fuel(range_stops, 9);
    let text = DEAD_BANNER@;
    assert forall|i: int, c: char| 1 <= i < text.len() && is_marker(c) implies text[i] != c by {
        assert(range_free_of(text, c, 1, 73));
        lemma_range_free_of(text, c, 1, 73);
    }
    assert(range_free_of(text, '\n', 0, 73));
    lemma_range_free_of(text, '\n', 0, 73);
    assert(range_stops(text, TOKEN_LABEL_CLOSE@, 1, 73));
    lemma_range_stops(text, TOKEN_LABEL_CLOSE@, 1, 73);
}

/// `SAFE_BANNER` opens with its marker and holds no other; it holds no line
/// break and cannot run on into the closing half of the token label.
pub proof fn lemma_safe_banner()
    ensures
        marked_text(SAFE_BANNER@, SAFE_MARK),
{
    reveal_strlit(
        "✅ SAFE — No immediate danger. Focus on growth and strategy.",
    );
    reveal_strlit(" Balance: ");
    reveal_with_fuel(range_free_of, 8);
    reveal_with_fuel(range_stops, 8);
    let text = SAFE_BANNER@;
    assert forall|i: int, c: char| 1 <= i < text.len() && is_marker(c) implies text[i] != c by {
        assert(range_free_of(text, c, 1, 59));
        lemma_range_free_of(text, c, 1, 59);
    }
    assert(range_free_of(text, '\n', 0, 59));
    lemma_range_free_of(text, '\n', 0, 59);
    assert(range_stops(text, TOKEN_LABEL_CLOSE@, 1, 59));
    lemma_range_stops(text, TOKEN_LABEL_CLOSE@, 1, 59);
}

/// `COUNTDOWN_CLAUSE` opens with its marker and holds no other; it holds no line
/// break and cannot run on into the closing half of the token label.
pub proof fn lemma_countdown_clause()
    ensures
        marked_text(COUNTDOWN_CLAUSE@, COUNTDOWN_MARK),
{
    reveal_strlit(
        "⏰ DEATH COUNTDOWN IS ACTIVE. You are below kill threshold. Every cycle matters.",
    );
    reveal_strlit(" Balance: ");
    reveal_with_fuel(range_free_of, 9);
    reveal_with_fuel(range_stops, 9);
    let text = COUNTDOWN_CLAUSE@;
    assert forall|i: int, c: char| 1 <= i < text.len() && is_marker(c) implies text[i] != c by {
        assert(range_free_of(text, c, 1, 79));
        lemma_range_free_of(text, c, 1, 79);
    }
    assert(range_free_of(text, '\n', 0, 79));
    lemma_range_free_of(text, '\n', 0, 79);
    assert(range_stops(text, TOKEN_LABEL_CLOSE@, 1, 79));
    lemma_range_stops(text, TOKEN_LABEL_CLOSE@, 1, 79);
}

} // verus!
