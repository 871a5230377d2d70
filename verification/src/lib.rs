//! The verified core of a chat-completion relay: request normalization,
//! the decisions of the upstream dispatcher, the scan of streamed chunks for
//! usage data, and token accounting. All I/O is left to the caller.

pub mod error;
pub mod json;
pub mod metrics;
pub mod models;
pub mod routes;
pub mod text;
