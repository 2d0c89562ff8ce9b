//! End-to-end scenarios for the session lifecycle, driving the request
//! state machine exactly as a hosting process would: performing a simulated
//! gateway or login call whenever the machine asks for one, and counting
//! how many of each were made.

use botfair::api_types::{EventType, EventTypeResult};
use botfair::errors::{errorCode, Error};
use botfair::json_rpc::{RpcError, RpcResponse};
use botfair::session::{
    classify_reply, GatewayReply, LoginStep, RefreshDecision, ReqAction, ReqMachine,
    LOGIN_RETRY_DELAY_MILLIS,
};
use botfair::keepalive::{KeepAliveAction, KeepAliveMachine, KeepAliveWake};

fn ok_envelope(payload: Vec<EventTypeResult>) -> GatewayReply<Vec<EventTypeResult>> {
    GatewayReply::Envelope(RpcResponse {
        jsonrpc: "2.0".to_string(),
        result: Some(payload),
        error: None,
        id: "1".to_string(),
    })
}

fn session_expired_envelope() -> GatewayReply<Vec<EventTypeResult>> {
    GatewayReply::Envelope(RpcResponse {
        jsonrpc: "2.0".to_string(),
        result: None,
        error: Some(RpcError {
            code: -32099,
            message: errorCode::INVALID_SESSION_INFORMATION,
        }),
        id: "1".to_string(),
    })
}

fn sample_payload() -> Vec<EventTypeResult> {
    vec![EventTypeResult {
        eventType: Some(EventType {
            id: Some("1".to_string()),
            name: Some("Soccer".to_string()),
        }),
        marketCount: Some(7),
    }]
}

/// Fresh client, empty token slot: exactly one login, then one business
/// call, both succeeding.
#[test]
fn fresh_client_logs_in_once_then_calls_once() {
    let mut cell: Option<String> = None;
    let mut machine: ReqMachine<Vec<EventTypeResult>> = ReqMachine::new(cell.clone());
    let mut logins = 0;
    let mut calls = 0;

    let outcome = loop {
        match machine.next_action() {
            ReqAction::CallGateway(token) => {
                calls += 1;
                assert_eq!(token, "TOKEN-A");
                machine.on_call_result(classify_reply(ok_envelope(sample_payload())));
            }
            ReqAction::AcquireWriteLock => {
                let decision = machine.on_write_lock(&cell);
                assert!(matches!(decision, RefreshDecision::MustLogin));
            }
            ReqAction::AttemptLogin => {
                logins += 1;
                let step = machine.on_login_result(&mut cell, Ok("TOKEN-A".to_string()));
                assert!(matches!(step, LoginStep::Published));
            }
            ReqAction::Finished => break machine.into_result(),
        }
    };

    assert_eq!(logins, 1);
    assert_eq!(calls, 1);
    assert_eq!(cell, Some("TOKEN-A".to_string()));
    assert_eq!(outcome, Ok(sample_payload()));
}

/// A token the gateway rejects once: one login, the call retried with the
/// fresh token, success; two business calls and one login in total.
#[test]
fn rejected_token_is_refreshed_and_retried() {
    let mut cell: Option<String> = Some("OLD".to_string());
    let mut machine: ReqMachine<Vec<EventTypeResult>> = ReqMachine::new(cell.clone());
    let mut logins = 0;
    let mut calls = 0;

    let outcome = loop {
        match machine.next_action() {
            ReqAction::CallGateway(token) => {
                calls += 1;
                if token == "OLD" {
                    machine.on_call_result(classify_reply(session_expired_envelope()));
                } else {
                    assert_eq!(token, "NEW");
                    machine.on_call_result(classify_reply(ok_envelope(sample_payload())));
                }
            }
            ReqAction::AcquireWriteLock => {
                machine.on_write_lock(&cell);
            }
            ReqAction::AttemptLogin => {
                logins += 1;
                machine.on_login_result(&mut cell, Ok("NEW".to_string()));
            }
            ReqAction::Finished => break machine.into_result(),
        }
    };

    assert_eq!(calls, 2);
    assert_eq!(logins, 1);
    assert_eq!(cell, Some("NEW".to_string()));
    assert_eq!(outcome, Ok(sample_payload()));
}

/// Ten concurrent callers whose shared token the gateway rejects: the
/// write lock serializes their refresh sections; exactly one caller logs
/// in, the other nine adopt the published token, and every call succeeds.
#[test]
fn ten_concurrent_callers_share_one_login() {
    let mut cell: Option<String> = Some("STALE".to_string());
    let mut machines: Vec<ReqMachine<Vec<EventTypeResult>>> = Vec::new();
    for _ in 0..10 {
        machines.push(ReqMachine::new(cell.clone()));
    }
    let mut logins = 0;

    // every caller's first business call comes back "session expired"
    for machine in machines.iter_mut() {
        match machine.next_action() {
            ReqAction::CallGateway(token) => {
                assert_eq!(token, "STALE");
                machine.on_call_result(classify_reply(session_expired_envelope()));
            }
            _ => panic!("each caller should start with a business call"),
        }
    }

    // their critical sections run one after another under the write lock
    for machine in machines.iter_mut() {
        assert!(matches!(machine.next_action(), ReqAction::AcquireWriteLock));
        match machine.on_write_lock(&cell) {
            RefreshDecision::MustLogin => {
                logins += 1;
                let step = machine.on_login_result(&mut cell, Ok("FRESH".to_string()));
                assert!(matches!(step, LoginStep::Published));
            }
            RefreshDecision::AdoptNewToken => {}
        }
    }

    assert_eq!(logins, 1);

    // every caller retries with the fresh token and succeeds
    for machine in machines.into_iter() {
        match machine.next_action() {
            ReqAction::CallGateway(token) => {
                assert_eq!(token, "FRESH");
                let mut machine = machine;
                machine.on_call_result(classify_reply(ok_envelope(sample_payload())));
                assert!(matches!(machine.next_action(), ReqAction::Finished));
                assert_eq!(machine.into_result(), Ok(sample_payload()));
            }
            _ => panic!("each caller should retry with the fresh token"),
        }
    }
}

/// Login rejected every time: the machine keeps asking for another login
/// attempt, each separated by the configured fixed delay, and never
/// busy-loops or finishes.
#[test]
fn rejected_login_retries_at_fixed_interval() {
    let mut cell: Option<String> = None;
    let mut machine: ReqMachine<Vec<EventTypeResult>> = ReqMachine::new(cell.clone());

    assert!(matches!(machine.next_action(), ReqAction::AcquireWriteLock));
    assert!(matches!(machine.on_write_lock(&cell), RefreshDecision::MustLogin));

    for _ in 0..5 {
        assert!(matches!(machine.next_action(), ReqAction::AttemptLogin));
        let step = machine.on_login_result(
            &mut cell,
            Err(Error::BFLoginFailure("loginStatus: INVALID_USERNAME_OR_PASSWORD".to_string())),
        );
        match step {
            LoginStep::RetryAfterDelay(millis) => {
                assert_eq!(millis, LOGIN_RETRY_DELAY_MILLIS)
            }
            LoginStep::Published => panic!("a rejected login must not publish a token"),
        }
    }

    // still logging in: the outcome is never decided and the slot is
    // untouched
    assert!(matches!(machine.next_action(), ReqAction::AttemptLogin));
    assert_eq!(cell, None);
}

/// The keep-alive loop observes the shutdown signal while idle: it exits
/// at once and performs no further network calls.
#[test]
fn shutdown_signal_exits_keepalive_loop() {
    let cell: Option<String> = Some("TOKEN".to_string());
    let mut machine = KeepAliveMachine::new();

    // a couple of ordinary cycles first
    assert!(matches!(
        machine.on_wake(KeepAliveWake::Interval, &cell),
        KeepAliveAction::Ping(_)
    ));
    machine.on_ping_result("TOKEN".to_string(), true);

    let action = machine.on_wake(KeepAliveWake::Shutdown, &cell);
    assert!(matches!(action, KeepAliveAction::Exit));
    assert!(machine.is_stopped());
}
