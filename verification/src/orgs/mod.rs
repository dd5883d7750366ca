//! Organizations: their settings, members, integrations and workers.

pub mod integrations;
pub mod management;
pub mod members;
pub mod roles;
pub mod settings;
pub mod workers;
