//! The action model and the two request entry points: resolving a validated
//! state-transition body into an action, probing the raw body for retired
//! keys and annotating the outgoing request with the fixed advisory, and the
//! sibling response-submission path.

use vstd::prelude::*;
use vstd::string::StringExecFns;

use crate::config::AgentRuntimeConfig;
use crate::config::AgentRuntimeState;
use crate::config::EnterLlmWaitConfig;
use crate::config::SubmitLlmResponseConfig;
use crate::config::project_enter_spec;
use crate::json::RawDoc;
use crate::json::parse_raw;
use crate::json::raw_doc_of;
use crate::json::str_eq;
use crate::json::spec_lookup;
use crate::schema::SchemaError;
use crate::schema::spec_is_retired_key;
use crate::schema::spec_opt_bool;
use crate::schema::spec_req_str;
use crate::schema::spec_req_u32;
use crate::schema::spec_validate_patch;
use crate::schema::spec_validate_submit;
use crate::schema::validate_patch;
use crate::schema::validate_submit;

verus! {

/// The closed set of actions this layer hands to the executor.
#[derive(Clone, Debug, PartialEq, Eq)]
pub enum Action {
    /// Enter the LLM wait state, with the projected wait-entry payload.
    EnterLlmWait(EnterLlmWaitConfig),
    /// Leave the LLM wait state; no payload.
    ExitLlmWait,
    /// Deliver an external agent's computed response.
    SubmitLlmResponse(SubmitLlmResponseConfig),
}

/// One accepted request: the action it resolved to, plus an ordered,
/// initially empty list of advisory strings. The action is immutable; the
/// advisory list only ever grows, and only before the request is handed off.
#[derive(Debug)]
pub struct ParsedRequest {
    action: Action,
    advisories: Vec<String>,
}

impl ParsedRequest {
    /// The action this request resolved to.
    pub closed spec fn spec_action(&self) -> Action {
        self.action
    }

    /// The advisory strings attached so far, each as its characters.
    pub closed spec fn spec_advisories(&self) -> Seq<Seq<char>> {
        self.advisories@.map_values(|s: String| s@)
    }

    /// Wraps an action with no advisories attached.
    pub fn new(action: Action) -> (r: Self)
        ensures
            r.spec_action() == action,
            r.spec_advisories() =~= Seq::<Seq<char>>::empty(),
    {
        ParsedRequest { action, advisories: Vec::new() }
    }

    /// The action, read back.
    pub fn action(&self) -> (r: &Action)
        ensures
            *r == self.spec_action(),
    {
        &self.action
    }

    /// The advisory strings, read back.
    pub fn advisories(&self) -> (r: &Vec<String>)
        ensures
            r@.map_values(|s: String| s@) == self.spec_advisories(),
    {
        &self.advisories
    }

    /// Appends one advisory string, leaving the action as it was.
    pub fn append_advisory(&mut self, msg: String)
        ensures
            final(self).spec_action() == old(self).spec_action(),
            final(self).spec_advisories() =~= old(self).spec_advisories().push(msg@),
    {
        self.advisories.push(msg);
    }
}

/// The deprecation counter as this layer sees it: one count of requests that
/// carried a retired key. The surrounding process aggregates it into its
/// process-wide metrics.
#[derive(Clone, Copy, Debug, PartialEq, Eq, Structural)]
pub struct DeprecationCounter {
    /// How many annotated requests this counter has seen.
    pub count: u64,
}

impl DeprecationCounter {
    /// A fresh counter at zero.
    pub fn new() -> (r: Self)
        ensures
            r.count == 0,
    {
        DeprecationCounter { count: 0 }
    }
}

/// The fixed advisory attached to a state-transition request that carries a
/// retired key.
pub open spec fn spec_deprecation_message() -> Seq<char> {
    "PATCH /agent/runtime: target_balloon_mib and acknowledge_on_stop fields are deprecated and ignored."@
}

/// The fixed advisory, as a string.
pub fn deprecation_message() -> (r: String)
    ensures
        r@ == spec_deprecation_message(),
{
    String::from_str(
        "PATCH /agent/runtime: target_balloon_mib and acknowledge_on_stop fields are deprecated and ignored.",
    )
}

/// Whether the raw read of a body shows at least one retired key at the top
/// level.
pub open spec fn spec_has_retired(doc: RawDoc) -> bool {
    doc matches RawDoc::Object(fields) && (exists|i: int|
        0 <= i < fields@.len() && spec_is_retired_key(fields@[i].key@))
}

/// Probes the raw read of a body for retired keys.
fn has_retired_field(doc: &RawDoc) -> (r: bool)
    ensures
        r == spec_has_retired(*doc),
{
    match doc {
        RawDoc::Object(fields) => {
            let mut idx: usize = 0;
            while idx < fields.len()
                invariant
                    *doc == RawDoc::Object(*fields),
                    idx <= fields@.len(),
                    forall|j: int| 0 <= j < idx ==> !spec_is_retired_key(fields@[j].key@),
                decreases fields@.len() - idx,
            {
                let k = fields[idx].key.as_str();
                if str_eq(k, "target_balloon_mib") || str_eq(k, "acknowledge_on_stop") {
                    proof {
                        assert(spec_is_retired_key(fields@[idx as int].key@));
                    }
                    return true;
                }
                idx += 1;
            }
            false
        },
        _ => false,
    }
}

/// What resolving a validated configuration yields: entering the wait state
/// carries the projected payload, leaving it carries none, and any
/// wait-entry-only field of a `Running` request is discarded without error.
pub open spec fn spec_resolve(cfg: AgentRuntimeConfig) -> Action {
    match cfg.state {
        AgentRuntimeState::LlmWaiting => Action::EnterLlmWait(project_enter_spec(cfg)),
        AgentRuntimeState::Running => Action::ExitLlmWait,
    }
}

/// Maps a validated configuration's state to the transition intent. Total
/// over validated input; this layer never checks whether the current runtime
/// state permits the transition.
pub fn resolve(cfg: AgentRuntimeConfig) -> (r: Action)
    ensures
        r == spec_resolve(cfg),
{
    match cfg.state {
        AgentRuntimeState::LlmWaiting => Action::EnterLlmWait(EnterLlmWaitConfig::from(cfg)),
        AgentRuntimeState::Running => Action::ExitLlmWait,
    }
}

/// Cross-references the raw read of a body against the fixed retired-key
/// set: on a match it attaches the fixed advisory to the outgoing request
/// exactly once and counts the request exactly once, however many retired
/// keys matched; otherwise it leaves both untouched.
pub fn annotate_deprecation(doc: &RawDoc, req: &mut ParsedRequest, counter: &mut DeprecationCounter)
    requires
        old(counter).count < u64::MAX,
    ensures
        final(req).spec_action() == old(req).spec_action(),
        spec_has_retired(*doc) ==> final(req).spec_advisories() =~= old(req).spec_advisories().push(
            spec_deprecation_message(),
        ) && final(counter).count == old(counter).count + 1,
        !spec_has_retired(*doc) ==> *final(req) == *old(req) && *final(counter) == *old(counter),
{
    if has_retired_field(doc) {
        counter.count = counter.count + 1;
        req.append_advisory(deprecation_message());
    }
}

/// Parses and validates a state-transition request body, resolves it into
/// its action, and annotates the outgoing request when the body carried a
/// retired key. The counter moves exactly when an accepted request carried
/// one; a rejected request never touches it.
pub fn parse_patch_agent_runtime(body: &[u8], counter: &mut DeprecationCounter) -> (r: Result<
    ParsedRequest,
    SchemaError,
>)
    requires
        old(counter).count < u64::MAX,
    ensures
        ({
            let doc = raw_doc_of(body@);
            match r {
                Ok(pr) => {
                    &&& spec_validate_patch(doc) matches Ok(cfg) && pr.spec_action()
                        == spec_resolve(cfg)
                    &&& spec_has_retired(doc) ==> pr.spec_advisories() =~= seq![
                        spec_deprecation_message(),
                    ] && final(counter).count == old(counter).count + 1
                    &&& !spec_has_retired(doc) ==> pr.spec_advisories() =~= Seq::<
                        Seq<char>,
                    >::empty() && *final(counter) == *old(counter)
                },
                Err(e) => {
                    &&& spec_validate_patch(doc) == Err::<AgentRuntimeConfig, SchemaError>(e)
                    &&& *final(counter) == *old(counter)
                },
            }
        }),
{
    let doc = parse_raw(body);
    let cfg = match validate_patch(&doc) {
        Ok(c) => c,
        Err(e) => return Err(e),
    };
    let action = resolve(cfg);
    let mut req = ParsedRequest::new(action);
    annotate_deprecation(&doc, &mut req, counter);
    Ok(req)
}

/// Parses and validates a response-submission request body and wraps it as
/// a `SubmitLlmResponse` action with no advisories; this endpoint has no
/// deprecation path.
pub fn parse_put_agent_runtime_response(body: &[u8]) -> (r: Result<ParsedRequest, SchemaError>)
    ensures
        ({
            let doc = raw_doc_of(body@);
            match r {
                Ok(pr) => {
                    &&& spec_validate_submit(doc) is Ok
                    &&& pr.spec_advisories() =~= Seq::<Seq<char>>::empty()
                    &&& pr.spec_action() matches Action::SubmitLlmResponse(cfg) && (
                    doc matches RawDoc::Object(fields) && ({
                        &&& spec_req_str(spec_lookup(fields@, "request_id"@)) == Ok::<
                            Seq<char>,
                            SchemaError,
                        >(cfg.request_id@)
                        &&& spec_req_u32(spec_lookup(fields@, "vsock_port"@)) == Ok::<
                            u32,
                            SchemaError,
                        >(cfg.vsock_port)
                        &&& spec_req_str(spec_lookup(fields@, "response"@)) == Ok::<
                            Seq<char>,
                            SchemaError,
                        >(cfg.response@)
                        &&& spec_opt_bool(spec_lookup(fields@, "resume_vm"@)) == Ok::<
                            Option<bool>,
                            SchemaError,
                        >(cfg.resume_vm)
                    }))
                },
                Err(e) => spec_validate_submit(doc) == Err::<(), SchemaError>(e),
            }
        }),
{
    let doc = parse_raw(body);
    let cfg = match validate_submit(&doc) {
        Ok(c) => c,
        Err(e) => return Err(e),
    };
    Ok(ParsedRequest::new(Action::SubmitLlmResponse(cfg)))
}

} // verus!
