//! A single-shot notifier library: it resolves layered configuration,
//! builds a completion message, and drives the request sequence that posts
//! the message to a direct-message or channel endpoint.

pub mod config;
pub mod dispatch;
pub mod message;
