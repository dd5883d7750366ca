//! Evaluations: what a request may see of them, their builds, messages and
//! logs.

pub mod access;
pub mod builds;
pub mod log;
pub mod names;
pub mod query;
