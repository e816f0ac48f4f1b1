//! Request validation and translation for an agent-runtime control API.
//!
//! The library accepts JSON-encoded control requests that describe a desired
//! agent runtime state, validates them against a closed schema, tolerates a
//! fixed set of retired fields while flagging them, and translates each
//! accepted request into a strongly typed action for the downstream executor.

pub mod config;
pub mod json;
pub mod laws;
pub mod request;
pub mod schema;

pub use config::AgentRuntimeConfig;
pub use config::AgentRuntimeState;
pub use config::EnterLlmWaitConfig;
pub use config::SubmitLlmResponseConfig;
pub use request::Action;
pub use request::DeprecationCounter;
pub use request::ParsedRequest;
pub use schema::SchemaError;
