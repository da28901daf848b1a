//! Deployment orchestration for a fleet of hosts: key distribution framing,
//! evaluator invocation, log classification, per-node step pipelines, node
//! selection and bounded scheduling.
pub mod agent;
pub mod error;
pub mod eval;
pub mod key;
pub mod log;
pub mod push;
pub mod schedule;
pub mod select;
pub mod step;
pub mod text;
