//! Tests for the two request entry points: scenarios of the state-transition
//! and response-submission endpoints, plus edge cases for every error
//! variant and for the deprecation path.

use agent_runtime::config::EnterLlmWaitConfig;
use agent_runtime::config::SubmitLlmResponseConfig;
use agent_runtime::request::Action;
use agent_runtime::request::DeprecationCounter;
use agent_runtime::request::ParsedRequest;
use agent_runtime::request::deprecation_message;
use agent_runtime::request::parse_patch_agent_runtime;
use agent_runtime::request::parse_put_agent_runtime_response;
use agent_runtime::schema::SchemaError;

fn parse_patch(body: &str) -> (Result<ParsedRequest, SchemaError>, u64) {
    let mut counter = DeprecationCounter::new();
    let r = parse_patch_agent_runtime(body.as_bytes(), &mut counter);
    (r, counter.count)
}

#[test]
fn test_parse_patch_agent_runtime_enter_llm_wait() {
    let body = r#"{
            "state": "LlmWaiting",
            "pause_on_wait": true
        }"#;
    let (r, _) = parse_patch(body);
    assert_eq!(
        *r.unwrap().action(),
        Action::EnterLlmWait(EnterLlmWaitConfig {
            pause_on_wait: Some(true),
        })
    );
}

#[test]
fn test_parse_patch_agent_runtime_enter_llm_wait_defaults() {
    let body = r#"{
            "state": "LlmWaiting"
        }"#;
    let (r, _) = parse_patch(body);
    assert_eq!(
        *r.unwrap().action(),
        Action::EnterLlmWait(EnterLlmWaitConfig {
            pause_on_wait: None,
        })
    );
}

#[test]
fn test_parse_patch_agent_runtime_deprecated_fields_are_ignored() {
    let body = r#"{
            "state": "LlmWaiting",
            "target_balloon_mib": 512,
            "acknowledge_on_stop": true
        }"#;
    let (r, count) = parse_patch(body);
    let req = r.unwrap();
    assert_eq!(
        *req.action(),
        Action::EnterLlmWait(EnterLlmWaitConfig {
            pause_on_wait: None,
        })
    );
    assert_eq!(*req.advisories(), vec![deprecation_message()]);
    assert_eq!(count, 1);
}

#[test]
fn test_parse_patch_agent_runtime_exit_llm_wait() {
    let body = r#"{
            "state": "Running"
        }"#;
    let (r, _) = parse_patch(body);
    assert_eq!(*r.unwrap().action(), Action::ExitLlmWait);
}

#[test]
fn test_parse_patch_agent_runtime_bad_request_body() {
    let (r, _) = parse_patch("invalid_payload");
    assert!(matches!(r, Err(SchemaError::MalformedInput)));

    let body = r#"{
            "pause_on_wait": true
        }"#;
    let (r, _) = parse_patch(body);
    assert!(matches!(r, Err(SchemaError::MissingField)));

    let body = r#"{
            "state": "Paused"
        }"#;
    let (r, _) = parse_patch(body);
    assert!(matches!(r, Err(SchemaError::InvalidState)));

    let body = r#"{
            "state": "Running",
            "unexpected": true
        }"#;
    let (r, _) = parse_patch(body);
    assert!(matches!(r, Err(SchemaError::UnknownField)));
}

#[test]
fn test_parse_put_agent_runtime_response() {
    let body = r#"{
            "request_id": "req-1",
            "vsock_port": 11000,
            "response": "{\"ok\":true}",
            "resume_vm": true
        }"#;
    let req = parse_put_agent_runtime_response(body.as_bytes()).unwrap();
    assert_eq!(
        *req.action(),
        Action::SubmitLlmResponse(SubmitLlmResponseConfig {
            request_id: "req-1".to_string(),
            vsock_port: 11000,
            response: "{\"ok\":true}".to_string(),
            resume_vm: Some(true),
        })
    );
}

#[test]
fn test_parse_put_agent_runtime_response_bad_request_body() {
    let r = parse_put_agent_runtime_response("invalid_payload".as_bytes());
    assert!(matches!(r, Err(SchemaError::MalformedInput)));

    let body = r#"{
            "request_id": "req-1",
            "response": "payload"
        }"#;
    let r = parse_put_agent_runtime_response(body.as_bytes());
    assert!(matches!(r, Err(SchemaError::MissingField)));
}

#[test]
fn patch_running_discards_wait_entry_fields() {
    let body = r#"{"state":"Running","pause_on_wait":false}"#;
    let (r, count) = parse_patch(body);
    let req = r.unwrap();
    assert_eq!(*req.action(), Action::ExitLlmWait);
    assert!(req.advisories().is_empty());
    assert_eq!(count, 0);
}

#[test]
fn patch_two_retired_keys_give_one_advisory_and_one_count() {
    let body = r#"{"state":"Running","target_balloon_mib":64,"acknowledge_on_stop":false}"#;
    let (r, count) = parse_patch(body);
    let req = r.unwrap();
    assert_eq!(*req.action(), Action::ExitLlmWait);
    assert_eq!(*req.advisories(), vec![deprecation_message()]);
    assert_eq!(count, 1);
}

#[test]
fn patch_accepted_without_retired_keys_leaves_counter_alone() {
    let body = r#"{"state":"LlmWaiting","pause_on_wait":false}"#;
    let (r, count) = parse_patch(body);
    let req = r.unwrap();
    assert!(req.advisories().is_empty());
    assert_eq!(count, 0);
}

#[test]
fn patch_rejected_body_leaves_counter_alone() {
    let body = r#"{"state":"Paused","target_balloon_mib":64}"#;
    let (r, count) = parse_patch(body);
    assert!(matches!(r, Err(SchemaError::InvalidState)));
    assert_eq!(count, 0);
}

#[test]
fn patch_null_pause_on_wait_reads_as_unset() {
    let body = r#"{"state":"LlmWaiting","pause_on_wait":null}"#;
    let (r, _) = parse_patch(body);
    assert_eq!(
        *r.unwrap().action(),
        Action::EnterLlmWait(EnterLlmWaitConfig {
            pause_on_wait: None,
        })
    );
}

#[test]
fn patch_mistyped_pause_on_wait_is_rejected() {
    let body = r#"{"state":"LlmWaiting","pause_on_wait":1}"#;
    let (r, _) = parse_patch(body);
    assert!(matches!(r, Err(SchemaError::TypeMismatch)));
}

#[test]
fn patch_mistyped_retired_value_is_rejected() {
    let body = r#"{"state":"LlmWaiting","target_balloon_mib":"big"}"#;
    let (r, _) = parse_patch(body);
    assert!(matches!(r, Err(SchemaError::TypeMismatch)));
}

#[test]
fn patch_mistyped_state_is_rejected() {
    let body = r#"{"state":5}"#;
    let (r, _) = parse_patch(body);
    assert!(matches!(r, Err(SchemaError::TypeMismatch)));
}

#[test]
fn patch_top_level_array_is_rejected() {
    let (r, _) = parse_patch("[1,2]");
    assert!(matches!(r, Err(SchemaError::TypeMismatch)));
}

#[test]
fn patch_empty_body_is_rejected() {
    let (r, _) = parse_patch("");
    assert!(matches!(r, Err(SchemaError::MalformedInput)));
}

#[test]
fn patch_empty_object_misses_state() {
    let (r, _) = parse_patch("{}");
    assert!(matches!(r, Err(SchemaError::MissingField)));
}

#[test]
fn patch_duplicate_state_keeps_last_value() {
    let body = r#"{"state":"Paused","state":"Running"}"#;
    let (r, _) = parse_patch(body);
    assert_eq!(*r.unwrap().action(), Action::ExitLlmWait);
}

#[test]
fn patch_resolves_the_same_twice() {
    let body = r#"{"state":"LlmWaiting","pause_on_wait":true}"#;
    let (first, _) = parse_patch(body);
    let (second, _) = parse_patch(body);
    assert_eq!(*first.unwrap().action(), *second.unwrap().action());
}

#[test]
fn advisory_text_is_fixed() {
    assert_eq!(
        deprecation_message(),
        "PATCH /agent/runtime: target_balloon_mib and acknowledge_on_stop fields are deprecated and ignored."
    );
}

#[test]
fn put_resume_vm_defaults_to_unset() {
    let body = r#"{"request_id":"req-2","vsock_port":1,"response":"r"}"#;
    let req = parse_put_agent_runtime_response(body.as_bytes()).unwrap();
    assert_eq!(
        *req.action(),
        Action::SubmitLlmResponse(SubmitLlmResponseConfig {
            request_id: "req-2".to_string(),
            vsock_port: 1,
            response: "r".to_string(),
            resume_vm: None,
        })
    );
    assert!(req.advisories().is_empty());
}

#[test]
fn put_null_resume_vm_reads_as_unset() {
    let body = r#"{"request_id":"req-3","vsock_port":2,"response":"r","resume_vm":null}"#;
    let req = parse_put_agent_runtime_response(body.as_bytes()).unwrap();
    match req.action() {
        Action::SubmitLlmResponse(cfg) => assert_eq!(cfg.resume_vm, None),
        other => panic!("unexpected action {:?}", other),
    }
}

#[test]
fn put_port_at_the_limit_is_accepted() {
    let body = r#"{"request_id":"req-4","vsock_port":4294967295,"response":"r"}"#;
    let req = parse_put_agent_runtime_response(body.as_bytes()).unwrap();
    match req.action() {
        Action::SubmitLlmResponse(cfg) => assert_eq!(cfg.vsock_port, u32::MAX),
        other => panic!("unexpected action {:?}", other),
    }
}

#[test]
fn put_port_above_the_limit_is_rejected() {
    let body = r#"{"request_id":"req-5","vsock_port":4294967296,"response":"r"}"#;
    let r = parse_put_agent_runtime_response(body.as_bytes());
    assert!(matches!(r, Err(SchemaError::TypeMismatch)));
}

#[test]
fn put_mistyped_port_is_rejected() {
    let body = r#"{"request_id":"req-6","vsock_port":true,"response":"r"}"#;
    let r = parse_put_agent_runtime_response(body.as_bytes());
    assert!(matches!(r, Err(SchemaError::TypeMismatch)));

    let body = r#"{"request_id":"req-6","vsock_port":null,"response":"r"}"#;
    let r = parse_put_agent_runtime_response(body.as_bytes());
    assert!(matches!(r, Err(SchemaError::TypeMismatch)));
}

#[test]
fn put_mistyped_request_id_is_rejected() {
    let body = r#"{"request_id":7,"vsock_port":1,"response":"r"}"#;
    let r = parse_put_agent_runtime_response(body.as_bytes());
    assert!(matches!(r, Err(SchemaError::TypeMismatch)));
}

#[test]
fn put_mistyped_resume_vm_is_rejected() {
    let body = r#"{"request_id":"req-7","vsock_port":1,"response":"r","resume_vm":"x"}"#;
    let r = parse_put_agent_runtime_response(body.as_bytes());
    assert!(matches!(r, Err(SchemaError::TypeMismatch)));
}

#[test]
fn put_unknown_key_is_rejected() {
    let body = r#"{"request_id":"req-8","vsock_port":1,"response":"r","extra":1}"#;
    let r = parse_put_agent_runtime_response(body.as_bytes());
    assert!(matches!(r, Err(SchemaError::UnknownField)));
}

#[test]
fn put_retired_patch_key_is_unknown_here() {
    let body = r#"{"request_id":"req-9","vsock_port":1,"response":"r","target_balloon_mib":64}"#;
    let r = parse_put_agent_runtime_response(body.as_bytes());
    assert!(matches!(r, Err(SchemaError::UnknownField)));
}
