//! Tests for the typed configurations, the wait-entry projection and the
//! state-transition resolver taken on their own.

use agent_runtime::config::AgentRuntimeConfig;
use agent_runtime::config::AgentRuntimeState;
use agent_runtime::config::EnterLlmWaitConfig;
use agent_runtime::request::Action;
use agent_runtime::request::resolve;

#[test]
fn projection_keeps_pause_on_wait() {
    let cfg = AgentRuntimeConfig {
        state: AgentRuntimeState::LlmWaiting,
        pause_on_wait: Some(false),
    };
    assert_eq!(
        EnterLlmWaitConfig::from(cfg),
        EnterLlmWaitConfig {
            pause_on_wait: Some(false),
        }
    );
}

#[test]
fn projection_keeps_the_default() {
    let cfg = AgentRuntimeConfig {
        state: AgentRuntimeState::LlmWaiting,
        pause_on_wait: None,
    };
    assert_eq!(EnterLlmWaitConfig::from(cfg), EnterLlmWaitConfig { pause_on_wait: None });
}

#[test]
fn resolver_wraps_the_projection() {
    let cfg = AgentRuntimeConfig {
        state: AgentRuntimeState::LlmWaiting,
        pause_on_wait: Some(true),
    };
    assert_eq!(
        resolve(cfg),
        Action::EnterLlmWait(EnterLlmWaitConfig {
            pause_on_wait: Some(true),
        })
    );
}

#[test]
fn resolver_discards_wait_entry_fields_on_exit() {
    let cfg = AgentRuntimeConfig {
        state: AgentRuntimeState::Running,
        pause_on_wait: Some(true),
    };
    assert_eq!(resolve(cfg), Action::ExitLlmWait);
}

#[test]
fn resolver_is_stable_across_runs() {
    let cfg = AgentRuntimeConfig {
        state: AgentRuntimeState::LlmWaiting,
        pause_on_wait: Some(true),
    };
    assert_eq!(resolve(cfg), resolve(cfg));
}
