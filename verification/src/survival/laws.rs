//! What holds of every directive and of every run of the scheduler.

use vstd::prelude::*;
use crate::survival::config::{
    clamped_interval, prompt_or_default, DEFAULT_SURVIVAL_PROMPT, MIN_INTERVAL_SECS,
};
use crate::survival::directive::{
    banner_text, countdown_note, cycle_prompt, instructions, BALANCE_RAW_LABEL, CLOSING,
    CONFIRMATIONS_LABEL, COUNTDOWN_CLAUSE, DEFENSIVE, INTRODUCTION, MARKET_CAP_LABEL,
    OPPORTUNISTIC, PUBLISHING, RAW_HEADING, STATE_HEADING, STEPS, THRESHOLD_LABEL, TITLE_OPEN,
    TOKEN_LABEL_CLOSE, TOKEN_LABEL_OPEN, TREASURY_HEADING,
};
use crate::survival::observations::{tier_of, DangerLevel, GatherErrorView, ObservationsView};
use crate::survival::scheduler::{
    in_turn, next_state, response, CommandView, EventView, HealthReportView, Phase,
    SchedulerView, StepView, ACT_FAILED, OBSERVE_FAILED,
};
use crate::survival::template::{
    is_marker, lemma_balance_raw_label, lemma_closing, lemma_confirmations_label,
    lemma_countdown_clause, lemma_critical_banner, lemma_dead_banner, lemma_defensive,
    lemma_introduction, lemma_market_cap_label, lemma_opportunistic, lemma_publishing,
    lemma_raw_heading, lemma_safe_banner, lemma_state_heading, lemma_steps, lemma_threshold_label,
    lemma_title_open, lemma_token_label_close, lemma_token_label_open, lemma_treasury_heading,
    lemma_warning_banner, marked_text, plain_text, COUNTDOWN_MARK, CRITICAL_MARK, DEAD_MARK,
    SAFE_MARK, WARNING_MARK,
};
use crate::text::{
    contains_text, decimal, free_of, is_digit, join, join_first, lemma_contains_first,
    lemma_decimal_digits, lemma_join_contains, lemma_occurrence_in_join, lemma_stops_at_first,
    occurs_at, sealed, stops,
};

verus! {

/// The parts that a directive is joined from, in their order. The odd places
/// from the fourth on hold what the caller supplies; the others are fixed.
pub open spec fn directive_parts(obs: ObservationsView, prefix: Seq<char>, cycle: nat) -> Seq<
    Seq<char>,
> {
    seq![
        TITLE_OPEN@,
        decimal(cycle),
        INTRODUCTION@,
        prefix,
        STATE_HEADING@,
        banner_text(tier_of(obs.danger_level)),
        CONFIRMATIONS_LABEL@,
        obs.confirmations,
        THRESHOLD_LABEL@,
        obs.kill_threshold,
        MARKET_CAP_LABEL@,
        obs.market_cap,
        countdown_note(obs.is_countdown_active) + TREASURY_HEADING@,
        obs.eth_balance,
        TOKEN_LABEL_OPEN@,
        obs.token_symbol,
        TOKEN_LABEL_CLOSE@,
        obs.token_balance,
        RAW_HEADING@,
        obs.kill_switch_raw,
        BALANCE_RAW_LABEL@,
        obs.balance_raw,
        instructions(),
    ]
}

/// One of the texts that the caller supplies holds `needle`.
pub open spec fn supplied_text_holds(obs: ObservationsView, prefix: Seq<char>, needle: Seq<char>) -> bool {
    ||| contains_text(prefix, needle)
    ||| contains_text(obs.confirmations, needle)
    ||| contains_text(obs.kill_threshold, needle)
    ||| contains_text(obs.market_cap, needle)
    ||| contains_text(obs.eth_balance, needle)
    ||| contains_text(obs.token_symbol, needle)
    ||| contains_text(obs.token_balance, needle)
    ||| contains_text(obs.kill_switch_raw, needle)
    ||| contains_text(obs.balance_raw, needle)
}

/// A directive is its parts, one after the other.
pub proof fn lemma_directive_is_joined(obs: ObservationsView, prefix: Seq<char>, cycle: nat)
    ensures
        cycle_prompt(obs, prefix, cycle) == join(directive_parts(obs, prefix, cycle)),
        directive_parts(obs, prefix, cycle).len() == 23,
{
    reveal_with_fuel(join_first, 24);
    assert(cycle_prompt(obs, prefix, cycle) =~= join(directive_parts(obs, prefix, cycle)));
}

/// The banner of every tier opens with its own marker.
proof fn lemma_banner_marked(tier: DangerLevel) -> (mark: char)
    ensures
        marked_text(banner_text(tier), mark),
        mark != COUNTDOWN_MARK,
        mark == CRITICAL_MARK <==> tier == DangerLevel::Critical,
        mark == WARNING_MARK <==> tier == DangerLevel::Warning,
        mark == DEAD_MARK <==> tier == DangerLevel::Dead,
        mark == SAFE_MARK <==> tier == DangerLevel::Safe || tier == DangerLevel::Unknown,
{
    lemma_critical_banner();
    lemma_warning_banner();
    lemma_dead_banner();
    lemma_safe_banner();
    match tier {
        DangerLevel::Critical => CRITICAL_MARK,
        DangerLevel::Warning => WARNING_MARK,
        DangerLevel::Dead => DEAD_MARK,
        DangerLevel::Safe => SAFE_MARK,
        DangerLevel::Unknown => SAFE_MARK,
    }
}

/// A text with a marker of its own holds no other marker.
proof fn lemma_marked_free_of(text: Seq<char>, mark: char, other: char)
    requires
        marked_text(text, mark),
        is_marker(other),
        other != mark,
    ensures
        free_of(text, other),
{
    assert forall|i: int| 0 <= i < text.len() implies text[i] != other by {
        if i >= 1 {
            assert(1 <= i < text.len() && is_marker(other));
        }
    }
}

/// The instructions hold no marker and begin on a new line.
proof fn lemma_instructions_plain()
    ensures
        plain_text(instructions(), '\n'),
{
    lemma_steps();
    lemma_publishing();
    lemma_defensive();
    lemma_opportunistic();
    lemma_closing();
    let text = instructions();
    assert(text[0] == STEPS@[0]);
    assert forall|c: char| is_marker(c) implies free_of(text, c) by {
        assert(free_of(STEPS@, c));
        assert(free_of(PUBLISHING@, c));
        assert(free_of(DEFENSIVE@, c));
        assert(free_of(OPPORTUNISTIC@, c));
        assert(free_of(CLOSING@, c));
    }
}

/// What follows the market capitalisation begins on a new line, and holds no
/// marker but that of the countdown clause while the countdown runs.
proof fn lemma_note_and_treasury(active: bool)
    ensures
        (countdown_note(active) + TREASURY_HEADING@).len() > 0,
        (countdown_note(active) + TREASURY_HEADING@)[0] == '\n',
        forall|c: char|
            is_marker(c) && (active ==> c != COUNTDOWN_MARK) ==> free_of(
                countdown_note(active) + TREASURY_HEADING@,
                c,
            ),
{
    lemma_treasury_heading();
    lemma_countdown_clause();
    let text = countdown_note(active) + TREASURY_HEADING@;
    assert forall|c: char| is_marker(c) && (active ==> c != COUNTDOWN_MARK) implies free_of(
        text,
        c,
    ) by {
        assert(free_of(TREASURY_HEADING@, c));
        if active {
            lemma_marked_free_of(COUNTDOWN_CLAUSE@, COUNTDOWN_MARK, c);
            assert forall|i: int| 0 <= i < text.len() implies text[i] != c by {
                if i == 0 {
                } else if i < 1 + COUNTDOWN_CLAUSE@.len() {
                    assert(text[i] == COUNTDOWN_CLAUSE@[i - 1]);
                } else {
                    assert(text[i] == TREASURY_HEADING@[i - 1 - COUNTDOWN_CLAUSE@.len()]);
                }
            }
        } else {
            assert(text =~= TREASURY_HEADING@);
        }
    }
}

/// Where a banner or the countdown clause stands in a directive, it stands
/// within one part: in a text that the caller supplied, in the place of the
/// banner, or in what follows the market capitalisation.
proof fn lemma_marked_occurrence(
    obs: ObservationsView,
    prefix: Seq<char>,
    cycle: nat,
    needle: Seq<char>,
    mark: char,
) -> (k: int)
    requires
        marked_text(needle, mark),
        contains_text(cycle_prompt(obs, prefix, cycle), needle),
        obs.is_countdown_active ==> mark != COUNTDOWN_MARK,
    ensures
        contains_text(directive_parts(obs, prefix, cycle)[k], needle),
        k == 3 || k == 5 || k == 7 || k == 9 || k == 11 || k == 13 || k == 15 || k == 17 || k
            == 19 || k == 21,
{
    let parts = directive_parts(obs, prefix, cycle);
    lemma_directive_is_joined(obs, prefix, cycle);
    lemma_title_open();
    lemma_introduction();
    lemma_state_heading();
    lemma_confirmations_label();
    lemma_threshold_label();
    lemma_market_cap_label();
    lemma_token_label_open();
    lemma_token_label_close();
    lemma_raw_heading();
    lemma_balance_raw_label();
    lemma_instructions_plain();
    lemma_note_and_treasury(obs.is_countdown_active);
    lemma_decimal_digits(cycle);
    assert(free_of(parts[1], mark)) by {
        assert forall|i: int| 0 <= i < decimal(cycle).len() implies decimal(cycle)[i] != mark by {
            assert(is_digit(decimal(cycle)[i]));
        }
    }
    assert(free_of(parts[0], mark));
    assert(free_of(parts[2], mark));
    assert(free_of(parts[4], mark));
    assert(free_of(parts[6], mark));
    assert(free_of(parts[8], mark));
    assert(free_of(parts[10], mark));
    assert(free_of(parts[12], mark));
    assert(free_of(parts[14], mark));
    assert(free_of(parts[16], mark));
    assert(free_of(parts[18], mark));
    assert(free_of(parts[20], mark));
    assert(free_of(parts[22], mark));
    lemma_stops_at_first(needle, parts[4]);
    lemma_stops_at_first(needle, parts[6]);
    lemma_stops_at_first(needle, parts[8]);
    lemma_stops_at_first(needle, parts[10]);
    lemma_stops_at_first(needle, parts[12]);
    lemma_stops_at_first(needle, parts[14]);
    lemma_stops_at_first(needle, parts[18]);
    lemma_stops_at_first(needle, parts[20]);
    lemma_stops_at_first(needle, parts[22]);
    assert(stops(needle, parts[16]));
    assert forall|k: int| 0 <= k < parts.len() implies sealed(parts, k, needle) by {
        if k == 3 {
            assert(stops(needle, parts[k + 1]));
        } else if k == 5 {
            assert(stops(needle, parts[k + 1]));
        } else if k == 7 {
            assert(stops(needle, parts[k + 1]));
        } else if k == 9 {
            assert(stops(needle, parts[k + 1]));
        } else if k == 11 {
            assert(stops(needle, parts[k + 1]));
        } else if k == 13 {
            assert(stops(needle, parts[k + 1]));
        } else if k == 15 {
            assert(stops(needle, parts[k + 1]));
        } else if k == 17 {
            assert(stops(needle, parts[k + 1]));
        } else if k == 19 {
            assert(stops(needle, parts[k + 1]));
        } else if k == 21 {
            assert(stops(needle, parts[k + 1]));
        } else {
            assert(free_of(parts[k], needle[0]));
        }
    }
    let at = choose|at: int| occurs_at(join(parts), needle, at);
    let k = lemma_occurrence_in_join(parts, needle, at);
    assert(contains_text(parts[k], needle));
    lemma_contains_first(parts[k], needle);
    k
}

/// Two tiers share a banner exactly when they are presented alike: each of
/// critical, warning and dead has a banner of its own, and an unknown level
/// has the banner of the safe tier.
pub proof fn law_banners_differ(a: DangerLevel, b: DangerLevel)
    ensures
        banner_text(a) == banner_text(b) <==> a == b || ((a == DangerLevel::Safe || a
            == DangerLevel::Unknown) && (b == DangerLevel::Safe || b == DangerLevel::Unknown)),
{
    let mark_a = lemma_banner_marked(a);
    let mark_b = lemma_banner_marked(b);
}

/// A directive holds the banner of a tier exactly when that banner is the
/// one of the observed danger level, unless a text that the caller supplied
/// holds the banner itself. So the banner of the observed level is always
/// there, and no other banner is there that did not come in with the inputs.
pub proof fn law_banner(obs: ObservationsView, prefix: Seq<char>, cycle: nat, tier: DangerLevel)
    ensures
        contains_text(cycle_prompt(obs, prefix, cycle), banner_text(tier)) <==> banner_text(tier)
            == banner_text(tier_of(obs.danger_level)) || supplied_text_holds(
            obs,
            prefix,
            banner_text(tier),
        ),
{
    let parts = directive_parts(obs, prefix, cycle);
    let needle = banner_text(tier);
    let own = tier_of(obs.danger_level);
    lemma_directive_is_joined(obs, prefix, cycle);
    if contains_text(cycle_prompt(obs, prefix, cycle), needle) {
        let mark = lemma_banner_marked(tier);
        let k = lemma_marked_occurrence(obs, prefix, cycle, needle, mark);
        if k == 5 {
            let own_mark = lemma_banner_marked(own);
            lemma_contains_first(banner_text(own), needle);
            if own_mark != mark {
                lemma_marked_free_of(banner_text(own), own_mark, mark);
            }
            law_banners_differ(tier, own);
        }
    }
    if needle == banner_text(own) {
        assert(occurs_at(parts[5], needle, 0)) by {
            assert(parts[5].subrange(0, needle.len() as int) =~= needle);
        }
        lemma_join_contains(parts, 5, needle);
    }
    if supplied_text_holds(obs, prefix, needle) {
        lemma_supplied_text_is_carried(obs, prefix, cycle, needle);
    }
}

/// What a text that the caller supplied holds, the directive holds.
pub proof fn lemma_supplied_text_is_carried(
    obs: ObservationsView,
    prefix: Seq<char>,
    cycle: nat,
    needle: Seq<char>,
)
    requires
        supplied_text_holds(obs, prefix, needle),
    ensures
        contains_text(cycle_prompt(obs, prefix, cycle), needle),
{
    let parts = directive_parts(obs, prefix, cycle);
    lemma_directive_is_joined(obs, prefix, cycle);
    if contains_text(prefix, needle) {
        lemma_join_contains(parts, 3, needle);
    } else if contains_text(obs.confirmations, needle) {
        lemma_join_contains(parts, 7, needle);
    } else if contains_text(obs.kill_threshold, needle) {
        lemma_join_contains(parts, 9, needle);
    } else if contains_text(obs.market_cap, needle) {
        lemma_join_contains(parts, 11, needle);
    } else if contains_text(obs.eth_balance, needle) {
        lemma_join_contains(parts, 13, needle);
    } else if contains_text(obs.token_symbol, needle) {
        lemma_join_contains(parts, 15, needle);
    } else if contains_text(obs.token_balance, needle) {
        lemma_join_contains(parts, 17, needle);
    } else if contains_text(obs.kill_switch_raw, needle) {
        lemma_join_contains(parts, 19, needle);
    } else {
        lemma_join_contains(parts, 21, needle);
    }
}

/// For an observed level that is one of the four tiers, the directive holds
/// the banner of that tier and the banner of no other tier, as long as no
/// text that the caller supplied holds that other banner.
pub proof fn law_known_tier_banner(
    obs: ObservationsView,
    prefix: Seq<char>,
    cycle: nat,
    other: DangerLevel,
)
    requires
        tier_of(obs.danger_level) != DangerLevel::Unknown,
        other != DangerLevel::Unknown,
        other != tier_of(obs.danger_level),
        !supplied_text_holds(obs, prefix, banner_text(other)),
    ensures
        contains_text(cycle_prompt(obs, prefix, cycle), banner_text(tier_of(obs.danger_level))),
        !contains_text(cycle_prompt(obs, prefix, cycle), banner_text(other)),
{
    law_banner(obs, prefix, cycle, tier_of(obs.danger_level));
    law_banner(obs, prefix, cycle, other);
    law_banners_differ(other, tier_of(obs.danger_level));
}

/// A directive holds the countdown clause exactly while the countdown runs,
/// unless a text that the caller supplied holds the clause itself.
pub proof fn law_countdown(obs: ObservationsView, prefix: Seq<char>, cycle: nat)
    ensures
        contains_text(cycle_prompt(obs, prefix, cycle), COUNTDOWN_CLAUSE@)
            <==> obs.is_countdown_active || supplied_text_holds(obs, prefix, COUNTDOWN_CLAUSE@),
{
    let parts = directive_parts(obs, prefix, cycle);
    let needle = COUNTDOWN_CLAUSE@;
    lemma_directive_is_joined(obs, prefix, cycle);
    lemma_countdown_clause();
    if obs.is_countdown_active {
        assert(occurs_at(parts[12], needle, 1)) by {
            assert(parts[12].subrange(1, 1 + needle.len() as int) =~= needle);
        }
        lemma_join_contains(parts, 12, needle);
    } else if contains_text(cycle_prompt(obs, prefix, cycle), needle) {
        let k = lemma_marked_occurrence(obs, prefix, cycle, needle, COUNTDOWN_MARK);
        if k == 5 {
            let own = tier_of(obs.danger_level);
            let own_mark = lemma_banner_marked(own);
            lemma_contains_first(banner_text(own), needle);
            lemma_marked_free_of(banner_text(own), own_mark, COUNTDOWN_MARK);
        }
    }
    if supplied_text_holds(obs, prefix, needle) {
        lemma_supplied_text_is_carried(obs, prefix, cycle, needle);
    }
}

/// A directive opens with the title and the cycle number as a decimal
/// numeral, and holds the prefix, both raw JSON texts and every other text of
/// the observation, each as it was supplied.
pub proof fn law_directive_carries_inputs(obs: ObservationsView, prefix: Seq<char>, cycle: nat)
    ensures
        occurs_at(cycle_prompt(obs, prefix, cycle), TITLE_OPEN@ + decimal(cycle), 0),
        contains_text(cycle_prompt(obs, prefix, cycle), prefix),
        contains_text(cycle_prompt(obs, prefix, cycle), obs.kill_switch_raw),
        contains_text(cycle_prompt(obs, prefix, cycle), obs.balance_raw),
        contains_text(cycle_prompt(obs, prefix, cycle), obs.confirmations),
        contains_text(cycle_prompt(obs, prefix, cycle), obs.kill_threshold),
        contains_text(cycle_prompt(obs, prefix, cycle), obs.market_cap),
        contains_text(cycle_prompt(obs, prefix, cycle), obs.eth_balance),
        contains_text(cycle_prompt(obs, prefix, cycle), obs.token_symbol),
        contains_text(cycle_prompt(obs, prefix, cycle), obs.token_balance),
        contains_text(cycle_prompt(obs, prefix, cycle), instructions()),
{
    let parts = directive_parts(obs, prefix, cycle);
    let text = cycle_prompt(obs, prefix, cycle);
    lemma_directive_is_joined(obs, prefix, cycle);
    let head = TITLE_OPEN@ + decimal(cycle);
    assert(text.subrange(0, head.len() as int) =~= head);
    assert forall|k: int| 0 <= k < parts.len() implies contains_text(text, #[trigger] parts[k]) by {
        assert(parts[k].subrange(0, parts[k].len() as int) =~= parts[k]);
        assert(occurs_at(parts[k], parts[k], 0));
        lemma_join_contains(parts, k, parts[k]);
    }
    assert(contains_text(text, parts[3]));
    assert(contains_text(text, parts[7]));
    assert(contains_text(text, parts[9]));
    assert(contains_text(text, parts[11]));
    assert(contains_text(text, parts[13]));
    assert(contains_text(text, parts[15]));
    assert(contains_text(text, parts[17]));
    assert(contains_text(text, parts[19]));
    assert(contains_text(text, parts[21]));
    assert(contains_text(text, parts[22]));
}

/// A directive built with the prefix of a configuration holds the
/// configured prefix as it is, or the default prefix where none is
/// configured.
pub proof fn law_directive_carries_configured_prefix(
    obs: ObservationsView,
    configured: Seq<char>,
    cycle: nat,
)
    ensures
        configured.len() > 0 ==> contains_text(
            cycle_prompt(obs, prompt_or_default(configured), cycle),
            configured,
        ),
        configured.len() == 0 ==> contains_text(
            cycle_prompt(obs, prompt_or_default(configured), cycle),
            DEFAULT_SURVIVAL_PROMPT@,
        ),
{
    law_directive_carries_inputs(obs, prompt_or_default(configured), cycle);
}

/// The timer is never armed with less than the minimum: a configured interval
/// under it is raised to it, and any other passes unchanged.
pub proof fn law_interval_is_clamped(configured: u64)
    ensures
        clamped_interval(configured) >= MIN_INTERVAL_SECS,
        configured < MIN_INTERVAL_SECS ==> clamped_interval(configured) == MIN_INTERVAL_SECS,
        configured >= MIN_INTERVAL_SECS ==> clamped_interval(configured) == configured,
{
}

/// No event changes the interval or the prefix of a scheduler, and the cycle
/// count never falls.
pub proof fn law_configuration_is_kept(s: SchedulerView, event: EventView)
    requires
        s.cycle_count < u64::MAX,
    ensures
        next_state(s, event).interval_secs == s.interval_secs,
        next_state(s, event).prompt == s.prompt,
        next_state(s, event).cycle_count >= s.cycle_count,
{
}

/// An event that the scheduler does not wait for is dropped: it changes
/// nothing, nothing is reported, and the driver goes on as before. So a tick
/// that falls due while a cycle is under way starts no second cycle.
pub proof fn law_events_out_of_turn_are_dropped(s: SchedulerView, event: EventView)
    requires
        !in_turn(s.phase, event),
    ensures
        next_state(s, event) == s,
        response(s, event) == (StepView { report: None, command: CommandView::KeepWaiting }),
{
}

/// An event that the scheduler waits for is never dropped.
pub proof fn law_events_in_turn_are_answered(s: SchedulerView, event: EventView)
    requires
        in_turn(s.phase, event),
    ensures
        response(s, event).command != CommandView::KeepWaiting,
        next_state(s, event).phase != s.phase,
{
}

/// The directive that the acting engine is handed is the one of the
/// observation, the scheduler's prefix and the number of the cycle under
/// way. It opens with that number and holds that prefix as it is, or the
/// default prefix where the scheduler has none.
pub proof fn law_directive_of_a_cycle(s: SchedulerView, obs: ObservationsView)
    requires
        s.phase == Phase::Observing,
    ensures
        response(s, EventView::Observed(Ok(obs))) == (StepView {
            report: None,
            command: CommandView::Act(
                cycle_prompt(obs, prompt_or_default(s.prompt), s.cycle_count as nat),
            ),
        }),
        next_state(s, EventView::Observed(Ok(obs))).phase == Phase::Acting,
        occurs_at(
            cycle_prompt(obs, prompt_or_default(s.prompt), s.cycle_count as nat),
            TITLE_OPEN@ + decimal(s.cycle_count as nat),
            0,
        ),
        contains_text(
            cycle_prompt(obs, prompt_or_default(s.prompt), s.cycle_count as nat),
            prompt_or_default(s.prompt),
        ),
{
    law_directive_carries_inputs(obs, prompt_or_default(s.prompt), s.cycle_count as nat);
}

/// A failed gather abandons the cycle: the failure is reported with a reason
/// that says so, whichever of the two checks failed; no directive is built,
/// the acting engine is not called, and the scheduler is at rest again.
pub proof fn law_failed_observation_abandons_cycle(s: SchedulerView, error: GatherErrorView)
    requires
        s.phase == Phase::Observing,
    ensures
        response(s, EventView::Observed(Err(error))) == (StepView {
            report: Some(HealthReportView::Failed(OBSERVE_FAILED@ + error.message())),
            command: CommandView::AwaitTick,
        }),
        next_state(s, EventView::Observed(Err(error))).phase == Phase::Idle,
        next_state(s, EventView::Observed(Err(error))).cycle_count == s.cycle_count,
{
}

/// A failed acting phase is reported with a reason that says so, and leaves
/// the scheduler at rest, where the next tick starts a cycle.
pub proof fn law_failed_act_is_reported(s: SchedulerView, message: Seq<char>)
    requires
        s.phase == Phase::Acting,
    ensures
        response(s, EventView::Acted(Err(message))) == (StepView {
            report: Some(HealthReportView::Failed(ACT_FAILED@ + message)),
            command: CommandView::AwaitTick,
        }),
        next_state(s, EventView::Acted(Err(message))).phase == Phase::Idle,
        response(next_state(s, EventView::Acted(Err(message))), EventView::Tick).command
            == CommandView::Gather,
{
}

/// The state after one whole cycle that observed `obs` and ended as `acted`.
pub open spec fn after_cycle(
    s: SchedulerView,
    obs: ObservationsView,
    acted: Result<(), Seq<char>>,
) -> SchedulerView {
    next_state(
        next_state(next_state(s, EventView::Tick), EventView::Observed(Ok(obs))),
        EventView::Acted(acted),
    )
}

/// The state after one cycle for each entry of `cycles`, every one of which
/// observed the world and then failed in its acting phase with a message.
pub open spec fn after_failed_cycles(
    s: SchedulerView,
    cycles: Seq<(ObservationsView, Seq<char>)>,
) -> SchedulerView
    decreases cycles.len(),
{
    if cycles.len() == 0 {
        s
    } else {
        after_cycle(
            after_failed_cycles(s, cycles.drop_last()),
            cycles.last().0,
            Err(cycles.last().1),
        )
    }
}

/// A cycle counts once, whatever its outcome, and ends at rest.
pub proof fn law_cycle_counts_once(
    s: SchedulerView,
    obs: ObservationsView,
    acted: Result<(), Seq<char>>,
)
    requires
        s.phase == Phase::Idle,
        s.cycle_count < u64::MAX,
    ensures
        after_cycle(s, obs, acted).phase == Phase::Idle,
        after_cycle(s, obs, acted).cycle_count == s.cycle_count + 1,
        response(
            next_state(s, EventView::Tick),
            EventView::Observed(Ok(obs)),
        ).command == CommandView::Act(
            cycle_prompt(obs, prompt_or_default(s.prompt), (s.cycle_count + 1) as nat),
        ),
{
}

/// The loop survives any number of cycles in a row whose acting phase fails:
/// after them the scheduler is at rest, has counted every one of them, and
/// answers the next tick by starting a cycle.
pub proof fn law_survives_act_failures(
    s: SchedulerView,
    cycles: Seq<(ObservationsView, Seq<char>)>,
)
    requires
        s.phase == Phase::Idle,
        s.cycle_count + cycles.len() < u64::MAX,
    ensures
        after_failed_cycles(s, cycles).phase == Phase::Idle,
        after_failed_cycles(s, cycles).cycle_count == s.cycle_count + cycles.len(),
        after_failed_cycles(s, cycles).interval_secs == s.interval_secs,
        after_failed_cycles(s, cycles).prompt == s.prompt,
        response(after_failed_cycles(s, cycles), EventView::Tick) == (StepView {
            report: Some(HealthReportView::Healthy),
            command: CommandView::Gather,
        }),
    decreases cycles.len(),
{
    if cycles.len() > 0 {
        law_survives_act_failures(s, cycles.drop_last());
    }
}

} // verus!
