//! Projects: their settings, evaluations, artefacts, metrics, actions and
//! triggers.

pub mod actions;
pub mod artifacts;
pub mod evaluations;
pub mod integrations;
pub mod management;
pub mod metrics;
pub mod triggers;
