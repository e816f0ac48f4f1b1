//! The laws this layer is built around, each stated over the validation and
//! resolution specifications and proved once and for all.

use vstd::prelude::*;

use crate::config::AgentRuntimeConfig;
use crate::config::AgentRuntimeState;
use crate::config::EnterLlmWaitConfig;
use crate::config::project_enter_spec;
use crate::json::RawDoc;
use crate::json::spec_lookup;
use crate::request::Action;
use crate::request::spec_resolve;
use crate::schema::SchemaError;
use crate::schema::spec_is_patch_key;
use crate::schema::spec_is_retired_key;
use crate::schema::spec_opt_bool;
use crate::schema::spec_validate_patch;

verus! {

/// For every body that validates with `state = "LlmWaiting"`, the resolved
/// action is `EnterLlmWait` and its payload mirrors exactly the supplied
/// `pause_on_wait` field, the default applying when the field was absent or
/// null.
pub proof fn lemma_enter_llm_wait_resolution(doc: RawDoc, cfg: AgentRuntimeConfig)
    requires
        spec_validate_patch(doc) == Ok::<AgentRuntimeConfig, SchemaError>(cfg),
        cfg.state == AgentRuntimeState::LlmWaiting,
    ensures
        doc matches RawDoc::Object(fields) && spec_opt_bool(
            spec_lookup(fields@, "pause_on_wait"@),
        ) matches Ok(p) && spec_resolve(cfg) == Action::EnterLlmWait(
            EnterLlmWaitConfig { pause_on_wait: p },
        ),
{
}

/// For every body that validates with `state = "Running"`, the resolved
/// action is `ExitLlmWait`, whatever wait-entry-only fields the body also
/// carried.
pub proof fn lemma_exit_llm_wait_resolution(doc: RawDoc, cfg: AgentRuntimeConfig)
    requires
        spec_validate_patch(doc) == Ok::<AgentRuntimeConfig, SchemaError>(cfg),
        cfg.state == AgentRuntimeState::Running,
    ensures
        spec_resolve(cfg) == Action::ExitLlmWait,
{
}

/// A retired key is still an accepted key of the state-transition schema:
/// its presence alone never makes a body unknown-field-rejected, which is
/// what keeps old clients on the advisory path instead of a hard error.
pub proof fn lemma_retired_keys_tolerated(k: Seq<char>)
    requires
        spec_is_retired_key(k),
    ensures
        spec_is_patch_key(k),
{
}

/// Any body whose top level carries a key that is neither in the current
/// schema nor a recognized retired key fails validation.
pub proof fn lemma_unknown_key_rejected(doc: RawDoc, i: int)
    requires
        doc matches RawDoc::Object(fields) && 0 <= i < fields@.len() && !spec_is_patch_key(
            fields@[i].key@,
        ),
    ensures
        spec_validate_patch(doc) == Err::<AgentRuntimeConfig, SchemaError>(
            SchemaError::UnknownField,
        ),
{
}

/// Any body with `state` missing, or with `state` holding a string outside
/// the closed enumeration, fails validation.
pub proof fn lemma_bad_state_rejected(doc: RawDoc)
    requires
        doc matches RawDoc::Object(fields) && ({
            ||| spec_lookup(fields@, "state"@) is None
            ||| spec_lookup(fields@, "state"@) matches Some(crate::json::JsonAtom::Str(s)) && s@
                != "LlmWaiting"@ && s@ != "Running"@
        }),
    ensures
        spec_validate_patch(doc) is Err,
{
}

/// Wraps a wait-entry payload back into a configuration that asks for the
/// wait state.
pub open spec fn spec_rewrap(e: EnterLlmWaitConfig) -> AgentRuntimeConfig {
    AgentRuntimeConfig { state: AgentRuntimeState::LlmWaiting, pause_on_wait: e.pause_on_wait }
}

/// Projecting a configuration into its wait-entry payload and re-wrapping it
/// is stable and idempotent: projecting again changes nothing, and resolving
/// the re-wrapped configuration yields the same action as resolving the
/// original, so running the resolver twice on the same validated
/// configuration yields equal action values.
pub proof fn lemma_projection_round_trip(cfg: AgentRuntimeConfig)
    requires
        cfg.state == AgentRuntimeState::LlmWaiting,
    ensures
        project_enter_spec(spec_rewrap(project_enter_spec(cfg))) == project_enter_spec(cfg),
        spec_rewrap(project_enter_spec(cfg)) == cfg,
        spec_resolve(spec_rewrap(project_enter_spec(cfg))) == spec_resolve(cfg),
{
}

} // verus!
