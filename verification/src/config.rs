//! The typed request bodies of the control API and the projection that
//! derives an `EnterLlmWaitConfig` from a validated `AgentRuntimeConfig`.

use vstd::prelude::*;

verus! {

/// Valid runtime states for agent-assisted execution. The enumeration is
/// closed: any other string in a request's `state` field is rejected by the
/// schema validator.
#[derive(Clone, Copy, Debug, PartialEq, Eq, Structural)]
pub enum AgentRuntimeState {
    /// The runtime waits for external LLM/network processing.
    LlmWaiting,
    /// The runtime is actively running in the guest.
    Running,
}

/// The validated body of a state-transition request: the required target
/// state together with the optional flag that controls entry into
/// `LlmWaiting`. Unknown top-level keys never reach this type; the schema
/// validator rejects the whole request first.
#[derive(Clone, Copy, Debug, PartialEq, Eq)]
pub struct AgentRuntimeConfig {
    /// Target runtime state.
    pub state: AgentRuntimeState,
    /// Optional pause behavior while waiting; `None` when the field was
    /// absent or null.
    pub pause_on_wait: Option<bool>,
}

/// The payload carried by the `EnterLlmWait` action: the projection of an
/// `AgentRuntimeConfig` onto the fields meaningful to wait entry.
#[derive(Clone, Copy, Debug, PartialEq, Eq)]
pub struct EnterLlmWaitConfig {
    /// Optional pause behavior while waiting.
    pub pause_on_wait: Option<bool>,
}

/// The validated body of a response-submission request.
#[derive(Clone, Debug, PartialEq, Eq)]
pub struct SubmitLlmResponseConfig {
    /// Identifier of the request this response answers.
    pub request_id: String,
    /// Vsock port the response is delivered on.
    pub vsock_port: u32,
    /// Opaque response payload; this layer never re-parses it.
    pub response: String,
    /// Whether the executor should resume the VM; `None` means the executor
    /// default applies.
    pub resume_vm: Option<bool>,
}

/// What projecting a validated configuration onto the wait-entry payload
/// yields: only `pause_on_wait` is meaningful to wait entry.
pub open spec fn project_enter_spec(cfg: AgentRuntimeConfig) -> EnterLlmWaitConfig {
    EnterLlmWaitConfig { pause_on_wait: cfg.pause_on_wait }
}

impl From<AgentRuntimeConfig> for EnterLlmWaitConfig {
    fn from(value: AgentRuntimeConfig) -> (r: Self) {
        EnterLlmWaitConfig { pause_on_wait: value.pause_on_wait }
    }
}

impl vstd::std_specs::convert::FromSpecImpl<AgentRuntimeConfig> for EnterLlmWaitConfig {
    open spec fn obeys_from_spec() -> bool {
        true
    }

    open spec fn from_spec(v: AgentRuntimeConfig) -> Self {
        project_enter_spec(v)
    }
}

} // verus!
