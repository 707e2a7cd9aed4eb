//! The survival loop: configuration, observation, directive and scheduler.

pub mod config;
pub mod directive;
pub mod laws;
pub mod observations;
pub mod scheduler;
pub mod template;

pub use config::{default_survival_prompt, SurvivalConfig, MIN_INTERVAL_SECS};
pub use directive::build_cycle_prompt;
pub use observations::{gather_observations, DangerLevel, GatherError, Observations};
pub use scheduler::{Command, CycleOutcome, Event, HealthReport, Phase, Scheduler, Step};
