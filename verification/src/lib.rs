//! Decision logic of the Gradient web layer: what requests mean, who may make
//! them, and how they are answered. The HTTP server, the database and the
//! scheduler call into it with plain values.

pub mod access;
pub mod caches;
pub mod codec;
pub mod commits;
pub mod config;
pub mod error;
pub mod evals;
pub mod forge_hooks;
pub mod helpers;
pub mod json;
pub mod metrics;
pub mod order;
pub mod orgs;
pub mod paths;
pub mod permissions;
pub mod projects;
pub mod roles;
pub mod routes;
pub mod rows;
pub mod servers;
pub mod sql;
pub mod stats;
pub mod status;
pub mod text;
pub mod users;
pub mod webhooks;
