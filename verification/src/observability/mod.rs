//! Observers of the agent's life cycle.

pub mod clawfoundry;
pub mod events;

pub use clawfoundry::ClawFoundryObserver;
pub use events::{ObserverEvent, ObserverMetric};
