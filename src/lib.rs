//! Inference adapter for a chat bot backed by a local completion service.
//!
//! The library holds the decisions of the adapter: the per-channel chat
//! registry and its trigger policy, the single-permit execution guard, token
//! accounting, prompt flattening and assembly, and the interpretation of the
//! backend's wire responses. Network calls are made by the caller, which
//! hands their outcomes back as plain values.

pub mod assemble;
pub mod error;
pub mod executor;
pub mod guard;
pub mod prompt;
pub mod registry;
pub mod tokens;
pub mod wire;
