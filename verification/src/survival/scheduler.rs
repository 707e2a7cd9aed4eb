//! The cycle scheduler as a state machine. The driver owns the timer and the
//! outside work; the scheduler decides. Each event that the driver hands in
//! is answered by one step: what to report to the health board, if anything,
//! and what to do next.

use vstd::prelude::*;
use crate::survival::config::{clamped_interval, prompt_or_default, SurvivalConfig, MIN_INTERVAL_SECS};
use crate::survival::directive::{build_cycle_prompt, cycle_prompt};
use crate::survival::observations::{
    GatherError, GatherErrorView, Observations, ObservationsView,
};

verus! {

/// The name under which the loop reports to the health board.
pub const COMPONENT: &'static str = "survival";

/// Opens the reason of a failed observation.
pub const OBSERVE_FAILED: &'static str = "observe failed: ";

/// Opens the reason of a failed acting phase.
pub const ACT_FAILED: &'static str = "think/act failed: ";

/// Where the scheduler stands between two events. Building the directive
/// and reporting to the health board take no outside work, so they happen
/// within a step and are no place to rest in.
#[derive(Debug, Clone, Copy, PartialEq, Eq, Structural)]
pub enum Phase {
    /// Waiting for the next tick.
    Idle,
    /// A gather is under way.
    Observing,
    /// The acting engine runs on the directive of this cycle.
    Acting,
}

/// How one cycle ended.
#[derive(Debug, Clone)]
pub enum CycleOutcome {
    Success,
    /// The gather failed, with the message of the failure.
    ObserveFailed(String),
    /// The acting engine failed, with its message.
    ActFailed(String),
}

/// A cycle's outcome as plain values.
pub enum CycleOutcomeView {
    Success,
    ObserveFailed(Seq<char>),
    ActFailed(Seq<char>),
}

impl View for CycleOutcome {
    type V = CycleOutcomeView;

    open spec fn view(&self) -> CycleOutcomeView {
        match self {
            CycleOutcome::Success => CycleOutcomeView::Success,
            CycleOutcome::ObserveFailed(m) => CycleOutcomeView::ObserveFailed(m@),
            CycleOutcome::ActFailed(m) => CycleOutcomeView::ActFailed(m@),
        }
    }
}

/// One call on the health board, always made under [`COMPONENT`].
#[derive(Debug, Clone)]
pub enum HealthReport {
    /// Mark the component as healthy.
    Healthy,
    /// Mark the component as failed, with a reason.
    Failed(String),
}

/// A health report as plain values.
pub enum HealthReportView {
    Healthy,
    Failed(Seq<char>),
}

impl View for HealthReport {
    type V = HealthReportView;

    open spec fn view(&self) -> HealthReportView {
        match self {
            HealthReport::Healthy => HealthReportView::Healthy,
            HealthReport::Failed(reason) => HealthReportView::Failed(reason@),
        }
    }
}

/// The report that an outcome calls for.
pub open spec fn report_of(outcome: CycleOutcomeView) -> HealthReportView {
    match outcome {
        CycleOutcomeView::Success => HealthReportView::Healthy,
        CycleOutcomeView::ObserveFailed(m) => HealthReportView::Failed(OBSERVE_FAILED@ + m),
        CycleOutcomeView::ActFailed(m) => HealthReportView::Failed(ACT_FAILED@ + m),
    }
}

impl CycleOutcome {
    /// The call on the health board that this outcome calls for.
    pub fn report(&self) -> (report: HealthReport)
        ensures
            report@ == report_of(self@),
    {
        match self {
            CycleOutcome::Success => HealthReport::Healthy,
            CycleOutcome::ObserveFailed(m) => {
                let mut reason = String::from_str(OBSERVE_FAILED);
                reason.append(m.as_str());
                HealthReport::Failed(reason)
            },
            CycleOutcome::ActFailed(m) => {
                let mut reason = String::from_str(ACT_FAILED);
                reason.append(m.as_str());
                HealthReport::Failed(reason)
            },
        }
    }
}

/// What the driver hands to the scheduler.
pub enum Event {
    /// The interval timer fired.
    Tick,
    /// The gather of this cycle came back.
    Observed(Result<Observations, GatherError>),
    /// The acting engine came back, with its message where it failed.
    Acted(Result<(), String>),
}

/// An event as plain values.
pub enum EventView {
    Tick,
    Observed(Result<ObservationsView, GatherErrorView>),
    Acted(Result<(), Seq<char>>),
}

impl View for Event {
    type V = EventView;

    open spec fn view(&self) -> EventView {
        match self {
            Event::Tick => EventView::Tick,
            Event::Observed(Ok(obs)) => EventView::Observed(Ok(obs@)),
            Event::Observed(Err(e)) => EventView::Observed(Err(e@)),
            Event::Acted(Ok(_)) => EventView::Acted(Ok(())),
            Event::Acted(Err(m)) => EventView::Acted(Err(m@)),
        }
    }
}

/// What the driver is to do next.
#[derive(Debug, Clone)]
pub enum Command {
    /// Wait for the next tick, then hand in `Event::Tick`.
    AwaitTick,
    /// Run the two checks of a gather, then hand in `Event::Observed`.
    Gather,
    /// Run the acting engine on this directive, then hand in `Event::Acted`.
    Act(String),
    /// The event came out of turn and was dropped: go on as before.
    KeepWaiting,
}

/// A command as plain values.
pub enum CommandView {
    AwaitTick,
    Gather,
    Act(Seq<char>),
    KeepWaiting,
}

impl View for Command {
    type V = CommandView;

    open spec fn view(&self) -> CommandView {
        match self {
            Command::AwaitTick => CommandView::AwaitTick,
            Command::Gather => CommandView::Gather,
            Command::Act(directive) => CommandView::Act(directive@),
            Command::KeepWaiting => CommandView::KeepWaiting,
        }
    }
}

/// The scheduler's answer to one event.
#[derive(Debug, Clone)]
pub struct Step {
    /// The call to make on the health board, if any.
    pub report: Option<HealthReport>,
    /// What to do after that.
    pub command: Command,
}

/// A step as plain values.
pub struct StepView {
    pub report: Option<HealthReportView>,
    pub command: CommandView,
}

impl View for Step {
    type V = StepView;

    open spec fn view(&self) -> StepView {
        StepView {
            report: match self.report {
                Some(r) => Some(r@),
                None => None,
            },
            command: self.command@,
        }
    }
}

/// The scheduler's state as plain values.
pub struct SchedulerView {
    /// The prefix of every directive.
    pub prompt: Seq<char>,
    /// The interval of the timer in seconds.
    pub interval_secs: u64,
    /// The number of ticks taken so far.
    pub cycle_count: u64,
    pub phase: Phase,
}

/// Whether `event` is the one that a scheduler in `phase` waits for.
pub open spec fn in_turn(phase: Phase, event: EventView) -> bool {
    match (phase, event) {
        (Phase::Idle, EventView::Tick) => true,
        (Phase::Observing, EventView::Observed(_)) => true,
        (Phase::Acting, EventView::Acted(_)) => true,
        _ => false,
    }
}

/// The state after `event`. A tick starts a cycle and counts it; a failed
/// gather abandons the cycle; whatever the acting engine returns ends it. An
/// event out of turn changes nothing.
pub open spec fn next_state(s: SchedulerView, event: EventView) -> SchedulerView {
    match (s.phase, event) {
        (Phase::Idle, EventView::Tick) => SchedulerView {
            cycle_count: (s.cycle_count + 1) as u64,
            phase: Phase::Observing,
            ..s
        },
        (Phase::Observing, EventView::Observed(Ok(_))) => SchedulerView { phase: Phase::Acting, ..s },
        (Phase::Observing, EventView::Observed(Err(_))) => SchedulerView { phase: Phase::Idle, ..s },
        (Phase::Acting, EventView::Acted(_)) => SchedulerView { phase: Phase::Idle, ..s },
        _ => s,
    }
}

/// The answer to `event`. The directive of a cycle carries the scheduler's
/// prefix, or the default prefix where the scheduler has none.
pub open spec fn response(s: SchedulerView, event: EventView) -> StepView {
    match (s.phase, event) {
        (Phase::Idle, EventView::Tick) => StepView {
            report: Some(HealthReportView::Healthy),
            command: CommandView::Gather,
        },
        (Phase::Observing, EventView::Observed(Ok(obs))) => StepView {
            report: None,
            command: CommandView::Act(
                cycle_prompt(obs, prompt_or_default(s.prompt), s.cycle_count as nat),
            ),
        },
        (Phase::Observing, EventView::Observed(Err(e))) => StepView {
            report: Some(report_of(CycleOutcomeView::ObserveFailed(e.message()))),
            command: CommandView::AwaitTick,
        },
        (Phase::Acting, EventView::Acted(Ok(_))) => StepView {
            report: Some(report_of(CycleOutcomeView::Success)),
            command: CommandView::AwaitTick,
        },
        (Phase::Acting, EventView::Acted(Err(m))) => StepView {
            report: Some(report_of(CycleOutcomeView::ActFailed(m))),
            command: CommandView::AwaitTick,
        },
        _ => StepView { report: None, command: CommandView::KeepWaiting },
    }
}

/// The scheduler of the survival loop.
pub struct Scheduler {
    prompt: String,
    interval_secs: u64,
    cycle_count: u64,
    phase: Phase,
}

impl View for Scheduler {
    type V = SchedulerView;

    closed spec fn view(&self) -> SchedulerView {
        SchedulerView {
            prompt: self.prompt@,
            interval_secs: self.interval_secs,
            cycle_count: self.cycle_count,
            phase: self.phase,
        }
    }
}

impl Scheduler {
    #[verifier::type_invariant]
    spec fn interval_is_clamped(self) -> bool {
        self.interval_secs >= MIN_INTERVAL_SECS
    }

    /// A scheduler at rest before its first tick, with the interval and the
    /// prefix that `config` calls for.
    pub fn new(config: &SurvivalConfig) -> (s: Scheduler)
        ensures
            s@.interval_secs == clamped_interval(config.interval_secs),
            s@.prompt == prompt_or_default(config.survival_prompt@),
            s@.cycle_count == 0,
            s@.phase == Phase::Idle,
    {
        Scheduler {
            prompt: config.effective_prompt(),
            interval_secs: config.effective_interval(),
            cycle_count: 0,
            phase: Phase::Idle,
        }
    }

    /// The interval in seconds to arm the timer with: never under the minimum.
    pub fn interval_secs(&self) -> (secs: u64)
        ensures
            secs == self@.interval_secs,
            secs >= MIN_INTERVAL_SECS,
    {
        proof {
            use_type_invariant(self);
        }
        self.interval_secs
    }

    /// The number of ticks taken so far.
    pub fn cycle_count(&self) -> (count: u64)
        ensures
            count == self@.cycle_count,
    {
        self.cycle_count
    }

    /// Where the scheduler stands.
    pub fn phase(&self) -> (phase: Phase)
        ensures
            phase == self@.phase,
    {
        self.phase
    }

    /// The prefix of every directive.
    pub fn prompt(&self) -> (prompt: &str)
        ensures
            prompt@ == self@.prompt,
    {
        self.prompt.as_str()
    }

    /// Takes one event and answers it.
    pub fn step(&mut self, event: Event) -> (step: Step)
        requires
            old(self)@.phase == Phase::Idle && event is Tick ==> old(self)@.cycle_count < u64::MAX,
        ensures
            final(self)@ == next_state(old(self)@, event@),
            step@ == response(old(self)@, event@),
    {
        proof {
            use_type_invariant(&*self);
        }
        match event {
            Event::Tick => match self.phase {
                Phase::Idle => {
                    self.cycle_count = self.cycle_count + 1;
                    self.phase = Phase::Observing;
                    Step { report: Some(HealthReport::Healthy), command: Command::Gather }
                },
                _ => Step { report: None, command: Command::KeepWaiting },
            },
            Event::Observed(gathered) => match self.phase {
                Phase::Observing => match gathered {
                    Ok(obs) => {
                        let directive = build_cycle_prompt(
                            &obs,
                            self.prompt.as_str(),
                            self.cycle_count,
                        );
                        self.phase = Phase::Acting;
                        Step { report: None, command: Command::Act(directive) }
                    },
                    Err(e) => {
                        let outcome = CycleOutcome::ObserveFailed(String::from_str(e.message()));
                        self.phase = Phase::Idle;
                        Step { report: Some(outcome.report()), command: Command::AwaitTick }
                    },
                },
                _ => Step { report: None, command: Command::KeepWaiting },
            },
            Event::Acted(acted) => match self.phase {
                Phase::Acting => {
                    let outcome = match acted {
                        Ok(_) => CycleOutcome::Success,
                        Err(m) => CycleOutcome::ActFailed(m),
                    };
                    self.phase = Phase::Idle;
                    Step { report: Some(outcome.report()), command: Command::AwaitTick }
                },
                _ => Step { report: None, command: Command::KeepWaiting },
            },
        }
    }
}

} // verus!
