//! The request path: normalization, dispatch and the streaming relay.

pub mod completions;
pub mod relay;
