//! The schema validators: strict, closed-schema checks that turn a generic
//! JSON read of a request body into a typed configuration, rejecting any key
//! outside the declared schema and any value of the wrong shape. Retired
//! keys of the state-transition schema are the one exception: they are still
//! accepted (their values type-checked, then discarded) so that old clients
//! get an advisory instead of a hard rejection.

use vstd::prelude::*;

use crate::config::AgentRuntimeConfig;
use crate::config::AgentRuntimeState;
use crate::config::SubmitLlmResponseConfig;
use crate::json::JsonAtom;
use crate::json::JsonField;
use crate::json::RawDoc;
use crate::json::find_index;
use crate::json::spec_lookup;
use crate::json::str_eq;

verus! {

/// The single failure kind of this layer. Every variant is terminal for the
/// request: nothing is partially accepted.
#[derive(Clone, Copy, Debug, PartialEq, Eq, Structural)]
pub enum SchemaError {
    /// The request bytes are not a well-formed JSON document.
    MalformedInput,
    /// A required field is absent.
    MissingField,
    /// A top-level key outside the declared schema (and not a recognized
    /// retired key) is present.
    UnknownField,
    /// The `state` field holds a string outside the closed enumeration.
    InvalidState,
    /// A value, or the document's top level, has the wrong type.
    TypeMismatch,
}

/// The retired keys of the state-transition schema: once meaningful, now
/// tolerated but flagged, their values never applied to behavior.
pub open spec fn spec_is_retired_key(k: Seq<char>) -> bool {
    k == "target_balloon_mib"@ || k == "acknowledge_on_stop"@
}

/// The keys the state-transition endpoint accepts: the current schema
/// (`state`, `pause_on_wait`) together with the retired keys.
pub open spec fn spec_is_patch_key(k: Seq<char>) -> bool {
    k == "state"@ || k == "pause_on_wait"@ || spec_is_retired_key(k)
}

/// The keys the response-submission endpoint accepts.
pub open spec fn spec_is_submit_key(k: Seq<char>) -> bool {
    k == "request_id"@ || k == "vsock_port"@ || k == "response"@ || k == "resume_vm"@
}

/// How an optional boolean field reads: absent or null means unset, a
/// boolean means set, anything else is a type mismatch.
pub open spec fn spec_opt_bool(a: Option<JsonAtom>) -> Result<Option<bool>, SchemaError> {
    match a {
        None => Ok(None),
        Some(JsonAtom::Null) => Ok(None),
        Some(JsonAtom::Bool(b)) => Ok(Some(b)),
        Some(_) => Err(SchemaError::TypeMismatch),
    }
}

/// How an optional unsigned 32-bit field reads: absent or null means unset,
/// an unsigned integer in range means set, anything else is a type mismatch.
pub open spec fn spec_opt_u32(a: Option<JsonAtom>) -> Result<Option<u32>, SchemaError> {
    match a {
        None => Ok(None),
        Some(JsonAtom::Null) => Ok(None),
        Some(JsonAtom::UInt(u)) => if u <= u32::MAX {
            Ok(Some(u as u32))
        } else {
            Err(SchemaError::TypeMismatch)
        },
        Some(_) => Err(SchemaError::TypeMismatch),
    }
}

/// How a required string field reads: absent is a missing field, a string
/// yields its characters, anything else is a type mismatch.
pub open spec fn spec_req_str(a: Option<JsonAtom>) -> Result<Seq<char>, SchemaError> {
    match a {
        None => Err(SchemaError::MissingField),
        Some(JsonAtom::Str(s)) => Ok(s@),
        Some(_) => Err(SchemaError::TypeMismatch),
    }
}

/// How a required unsigned 32-bit field reads: absent is a missing field,
/// an unsigned integer in range yields it, anything else is a type mismatch.
pub open spec fn spec_req_u32(a: Option<JsonAtom>) -> Result<u32, SchemaError> {
    match a {
        None => Err(SchemaError::MissingField),
        Some(JsonAtom::UInt(u)) => if u <= u32::MAX {
            Ok(u as u32)
        } else {
            Err(SchemaError::TypeMismatch)
        },
        Some(_) => Err(SchemaError::TypeMismatch),
    }
}

/// How the required `state` field reads: absent is a missing field, one of
/// the two closed enumeration strings yields its state, any other string is
/// an invalid state, and any non-string is a type mismatch.
pub open spec fn spec_state(a: Option<JsonAtom>) -> Result<AgentRuntimeState, SchemaError> {
    match a {
        None => Err(SchemaError::MissingField),
        Some(JsonAtom::Str(s)) => if s@ == "LlmWaiting"@ {
            Ok(AgentRuntimeState::LlmWaiting)
        } else if s@ == "Running"@ {
            Ok(AgentRuntimeState::Running)
        } else {
            Err(SchemaError::InvalidState)
        },
        Some(_) => Err(SchemaError::TypeMismatch),
    }
}

/// What validating a state-transition body yields: the closed-schema check
/// over the whole key set first, then each declared field in order (`state`,
/// `pause_on_wait`, then the retired keys, whose values are type-checked and
/// discarded).
pub open spec fn spec_validate_patch(doc: RawDoc) -> Result<AgentRuntimeConfig, SchemaError> {
    match doc {
        RawDoc::Invalid => Err(SchemaError::MalformedInput),
        RawDoc::NotObject => Err(SchemaError::TypeMismatch),
        RawDoc::Object(fields) => if !(forall|i: int|
            0 <= i < fields@.len() ==> spec_is_patch_key(fields@[i].key@)) {
            Err(SchemaError::UnknownField)
        } else {
            match spec_state(spec_lookup(fields@, "state"@)) {
                Err(e) => Err(e),
                Ok(state) => match spec_opt_bool(spec_lookup(fields@, "pause_on_wait"@)) {
                    Err(e) => Err(e),
                    Ok(pause_on_wait) => match spec_opt_u32(
                        spec_lookup(fields@, "target_balloon_mib"@),
                    ) {
                        Err(e) => Err(e),
                        Ok(_) => match spec_opt_bool(
                            spec_lookup(fields@, "acknowledge_on_stop"@),
                        ) {
                            Err(e) => Err(e),
                            Ok(_) => Ok(AgentRuntimeConfig { state, pause_on_wait }),
                        },
                    },
                },
            }
        },
    }
}

/// Whether a response-submission body is valid, and the error it earns when
/// it is not: the closed-schema check over the whole key set first, then
/// each declared field in order.
pub open spec fn spec_validate_submit(doc: RawDoc) -> Result<(), SchemaError> {
    match doc {
        RawDoc::Invalid => Err(SchemaError::MalformedInput),
        RawDoc::NotObject => Err(SchemaError::TypeMismatch),
        RawDoc::Object(fields) => if !(forall|i: int|
            0 <= i < fields@.len() ==> spec_is_submit_key(fields@[i].key@)) {
            Err(SchemaError::UnknownField)
        } else {
            match spec_req_str(spec_lookup(fields@, "request_id"@)) {
                Err(e) => Err(e),
                Ok(_) => match spec_req_u32(spec_lookup(fields@, "vsock_port"@)) {
                    Err(e) => Err(e),
                    Ok(_) => match spec_req_str(spec_lookup(fields@, "response"@)) {
                        Err(e) => Err(e),
                        Ok(_) => match spec_opt_bool(spec_lookup(fields@, "resume_vm"@)) {
                            Err(e) => Err(e),
                            Ok(_) => Ok(()),
                        },
                    },
                },
            }
        },
    }
}

/// Whether every top-level key belongs to the state-transition schema
/// (retired keys included).
fn patch_keys_ok(fields: &Vec<JsonField>) -> (r: bool)
    ensures
        r == (forall|i: int| 0 <= i < fields@.len() ==> spec_is_patch_key(fields@[i].key@)),
{
    let mut idx: usize = 0;
    while idx < fields.len()
        invariant
            idx <= fields@.len(),
            forall|j: int| 0 <= j < idx ==> spec_is_patch_key(fields@[j].key@),
        decreases fields@.len() - idx,
    {
        let k = fields[idx].key.as_str();
        if !(str_eq(k, "state") || str_eq(k, "pause_on_wait") || str_eq(k, "target_balloon_mib")
            || str_eq(k, "acknowledge_on_stop")) {
            return false;
        }
        idx += 1;
    }
    true
}

/// Whether every top-level key belongs to the response-submission schema.
fn submit_keys_ok(fields: &Vec<JsonField>) -> (r: bool)
    ensures
        r == (forall|i: int| 0 <= i < fields@.len() ==> spec_is_submit_key(fields@[i].key@)),
{
    let mut idx: usize = 0;
    while idx < fields.len()
        invariant
            idx <= fields@.len(),
            forall|j: int| 0 <= j < idx ==> spec_is_submit_key(fields@[j].key@),
        decreases fields@.len() - idx,
    {
        let k = fields[idx].key.as_str();
        if !(str_eq(k, "request_id") || str_eq(k, "vsock_port") || str_eq(k, "response")
            || str_eq(k, "resume_vm")) {
            return false;
        }
        idx += 1;
    }
    true
}

/// Reads an optional boolean field.
fn read_opt_bool(fields: &Vec<JsonField>, name: &str) -> (r: Result<Option<bool>, SchemaError>)
    ensures
        r == spec_opt_bool(spec_lookup(fields@, name@)),
{
    match find_index(fields, name) {
        None => Ok(None),
        Some(i) => match &fields[i].value {
            JsonAtom::Null => Ok(None),
            JsonAtom::Bool(b) => Ok(Some(*b)),
            _ => Err(SchemaError::TypeMismatch),
        },
    }
}

/// Reads an optional unsigned 32-bit field.
fn read_opt_u32(fields: &Vec<JsonField>, name: &str) -> (r: Result<Option<u32>, SchemaError>)
    ensures
        r == spec_opt_u32(spec_lookup(fields@, name@)),
{
    match find_index(fields, name) {
        None => Ok(None),
        Some(i) => match &fields[i].value {
            JsonAtom::Null => Ok(None),
            JsonAtom::UInt(u) => if *u <= u32::MAX as u64 {
                Ok(Some(*u as u32))
            } else {
                Err(SchemaError::TypeMismatch)
            },
            _ => Err(SchemaError::TypeMismatch),
        },
    }
}

/// Reads a required string field, handing back its characters.
fn read_req_str(fields: &Vec<JsonField>, name: &str) -> (r: Result<String, SchemaError>)
    ensures
        match r {
            Ok(s) => spec_req_str(spec_lookup(fields@, name@)) == Ok::<Seq<char>, SchemaError>(s@),
            Err(e) => spec_req_str(spec_lookup(fields@, name@)) == Err::<Seq<char>, SchemaError>(e),
        },
{
    match find_index(fields, name) {
        None => Err(SchemaError::MissingField),
        Some(i) => match &fields[i].value {
            JsonAtom::Str(s) => Ok(s.clone()),
            _ => Err(SchemaError::TypeMismatch),
        },
    }
}

/// Reads a required unsigned 32-bit field.
fn read_req_u32(fields: &Vec<JsonField>, name: &str) -> (r: Result<u32, SchemaError>)
    ensures
        r == spec_req_u32(spec_lookup(fields@, name@)),
{
    match find_index(fields, name) {
        None => Err(SchemaError::MissingField),
        Some(i) => match &fields[i].value {
            JsonAtom::UInt(u) => if *u <= u32::MAX as u64 {
                Ok(*u as u32)
            } else {
                Err(SchemaError::TypeMismatch)
            },
            _ => Err(SchemaError::TypeMismatch),
        },
    }
}

/// Reads the required `state` field.
fn read_state(fields: &Vec<JsonField>) -> (r: Result<AgentRuntimeState, SchemaError>)
    ensures
        r == spec_state(spec_lookup(fields@, "state"@)),
{
    match find_index(fields, "state") {
        None => Err(SchemaError::MissingField),
        Some(i) => match &fields[i].value {
            JsonAtom::Str(s) => if str_eq(s.as_str(), "LlmWaiting") {
                Ok(AgentRuntimeState::LlmWaiting)
            } else if str_eq(s.as_str(), "Running") {
                Ok(AgentRuntimeState::Running)
            } else {
                Err(SchemaError::InvalidState)
            },
            _ => Err(SchemaError::TypeMismatch),
        },
    }
}

/// Validates a state-transition body against the closed schema: every key
/// must be declared (or retired), `state` must hold one of the two closed
/// enumeration strings, and every recognized value must have its declared
/// type. Retired values are type-checked and discarded.
pub fn validate_patch(doc: &RawDoc) -> (r: Result<AgentRuntimeConfig, SchemaError>)
    ensures
        r == spec_validate_patch(*doc),
{
    match doc {
        RawDoc::Invalid => Err(SchemaError::MalformedInput),
        RawDoc::NotObject => Err(SchemaError::TypeMismatch),
        RawDoc::Object(fields) => {
            if !patch_keys_ok(fields) {
                return Err(SchemaError::UnknownField);
            }
            let state = match read_state(fields) {
                Ok(s) => s,
                Err(e) => return Err(e),
            };
            let pause_on_wait = match read_opt_bool(fields, "pause_on_wait") {
                Ok(v) => v,
                Err(e) => return Err(e),
            };
            let _balloon = match read_opt_u32(fields, "target_balloon_mib") {
                Ok(v) => v,
                Err(e) => return Err(e),
            };
            let _acknowledge = match read_opt_bool(fields, "acknowledge_on_stop") {
                Ok(v) => v,
                Err(e) => return Err(e),
            };
            Ok(AgentRuntimeConfig { state, pause_on_wait })
        },
    }
}

/// Validates a response-submission body against its closed schema and hands
/// back the typed configuration.
pub fn validate_submit(doc: &RawDoc) -> (r: Result<SubmitLlmResponseConfig, SchemaError>)
    ensures
        r is Ok <==> spec_validate_submit(*doc) is Ok,
        r matches Err(e) ==> spec_validate_submit(*doc) == Err::<(), SchemaError>(e),
        r matches Ok(cfg) ==> (*doc matches RawDoc::Object(fields) && ({
            &&& spec_req_str(spec_lookup(fields@, "request_id"@)) == Ok::<Seq<char>, SchemaError>(
                cfg.request_id@,
            )
            &&& spec_req_u32(spec_lookup(fields@, "vsock_port"@)) == Ok::<u32, SchemaError>(
                cfg.vsock_port,
            )
            &&& spec_req_str(spec_lookup(fields@, "response"@)) == Ok::<Seq<char>, SchemaError>(
                cfg.response@,
            )
            &&& spec_opt_bool(spec_lookup(fields@, "resume_vm"@)) == Ok::<
                Option<bool>,
                SchemaError,
            >(cfg.resume_vm)
        })),
{
    match doc {
        RawDoc::Invalid => Err(SchemaError::MalformedInput),
        RawDoc::NotObject => Err(SchemaError::TypeMismatch),
        RawDoc::Object(fields) => {
            if !submit_keys_ok(fields) {
                return Err(SchemaError::UnknownField);
            }
            let request_id = match read_req_str(fields, "request_id") {
                Ok(s) => s,
                Err(e) => return Err(e),
            };
            let vsock_port = match read_req_u32(fields, "vsock_port") {
                Ok(p) => p,
                Err(e) => return Err(e),
            };
            let response = match read_req_str(fields, "response") {
                Ok(s) => s,
                Err(e) => return Err(e),
            };
            let resume_vm = match read_opt_bool(fields, "resume_vm") {
                Ok(v) => v,
                Err(e) => return Err(e),
            };
            Ok(SubmitLlmResponseConfig { request_id, vsock_port, response, resume_vm })
        },
    }
}

} // verus!
