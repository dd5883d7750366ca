//! Incoming forge webhooks: what an event says, which triggers it fires and how
//! the request is answered.

pub mod approval;
pub mod comment;
pub mod events;
pub mod glob;
pub mod queries;
pub mod response;
pub mod trigger;
pub mod webhook;
