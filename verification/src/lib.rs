//! Survival scheduling for an autonomous agent: one cycle observes the kill
//! switch and the treasury, turns the observation into a directive, hands the
//! directive to an acting engine and reports the outcome to a health board.
//!
//! The library decides and words; it neither waits nor sends. Its functions
//! carry contracts that Verus proves. What it takes from `serde_json` and
//! from the few functions of `std` that Verus has no contract for stands
//! behind small wrappers whose contracts are taken on trust: see [`json`],
//! [`text`] and [`observability::events`].
//!
//! - [`survival`]: configuration, observation, directive and scheduler of
//!   the survival loop, and the laws that hold of them.
//! - [`tools`]: what each tool asks of the orchestrator and how it words the
//!   answer.
//! - [`observability`]: the observer that words the agent's life cycle as
//!   thought lines.

pub mod json;
pub mod observability;
pub mod survival;
pub mod text;
pub mod tools;
