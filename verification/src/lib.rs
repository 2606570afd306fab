//! Governed execution front-end for a GraphQL interface over a
//! block-versioned store: resolves resource limits with a strict
//! precedence order, prepares queries under those limits, pins a single
//! block constraint per one-shot execution, and routes failures from
//! every stage through one uniform error-list shape.

pub mod config;
pub mod errors;
pub mod limits;
pub mod orchestrator;
pub mod subscription;
