//! Adapter core for an external plate-solving engine: request and response
//! translation between a generic solver contract and the engine's wire schema,
//! the connection backoff policy, and the adapter's lifecycle state machine.

pub mod types;
pub mod request;
pub mod response;
pub mod backoff;
pub mod lifecycle;
