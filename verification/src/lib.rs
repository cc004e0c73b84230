//! Verified core of a staked task-graph execution coordinator.
//!
//! A machine-learning model is decomposed into a directed graph of tasks.
//! Workers stake collateral to become eligible for task assignment; an
//! orchestrator seeds one status record per task, assigns tasks to nodes,
//! records completions, samples completed tasks for re-verification from an
//! external entropy beacon, and advances the run along the graph's edges.
//!
//! Everything here operates on plain values; durable storage, transport and
//! signature checking live outside this crate and hand values in and out.

pub mod admin;
pub mod eligibility;
pub mod execution;
pub mod ids;
pub mod model;
pub mod node;
pub mod task;
