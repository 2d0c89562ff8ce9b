//! Unit tests for outcome classification, the response envelope, login and
//! keep-alive decisions, and the correlation id.

use botfair::errors::{errorCode, Error};
use botfair::json_rpc::{u128_hex, RpcError, RpcRequest, RpcResponse};
use botfair::keepalive::{keepalive_outcome, KeepAliveError, KeepAliveResponse, KeepAliveStatus};
use botfair::session::{
    classify_reply, login_outcome, GatewayReply, LoginResponse, ReqAction, ReqMachine,
};

fn envelope<T>(result: Option<T>, error: Option<RpcError>) -> RpcResponse<T> {
    RpcResponse { jsonrpc: "2.0".to_string(), result, error, id: "cafe".to_string() }
}

#[test]
fn envelope_with_result_yields_the_result() {
    let r: Result<i64, Error> = envelope(Some(99), None).into_inner();
    assert_eq!(r, Ok(99));
}

#[test]
fn envelope_error_wins_over_result() {
    let r: Result<i64, Error> = envelope(
        Some(99),
        Some(RpcError { code: -32099, message: errorCode::TOO_MUCH_DATA }),
    )
    .into_inner();
    assert_eq!(r, Err(Error::APINGException(errorCode::TOO_MUCH_DATA)));
}

#[test]
fn envelope_with_neither_is_a_protocol_violation() {
    let r: Result<i64, Error> = envelope(None, None).into_inner();
    assert_eq!(r, Err(Error::JSONRPCError));
}

#[test]
fn session_codes_classify_as_auth_failure() {
    for code in [errorCode::INVALID_SESSION_INFORMATION, errorCode::NO_SESSION] {
        let reply: GatewayReply<i64> =
            GatewayReply::Envelope(envelope(None, Some(RpcError { code: -32099, message: code })));
        assert_eq!(classify_reply(reply), Err(Error::SessionTokenInvalid));
    }
}

#[test]
fn business_error_codes_pass_through_unchanged() {
    for code in [
        errorCode::TOO_MUCH_DATA,
        errorCode::INVALID_INPUT_DATA,
        errorCode::NO_APP_KEY,
        errorCode::UNEXPECTED_ERROR,
        errorCode::INVALID_APP_KEY,
        errorCode::TOO_MANY_REQUESTS,
        errorCode::SERVICE_BUSY,
        errorCode::TIMEOUT_ERROR,
        errorCode::REQUEST_SIZE_EXCEEDS_LIMIT,
        errorCode::ACCESS_DENIED,
    ] {
        let reply: GatewayReply<i64> =
            GatewayReply::Envelope(envelope(None, Some(RpcError { code: -32099, message: code })));
        assert_eq!(classify_reply(reply), Err(Error::APINGException(code)));
    }
}

#[test]
fn rejected_token_header_is_an_auth_failure() {
    let reply: GatewayReply<i64> = GatewayReply::BadTokenHeader;
    assert_eq!(classify_reply(reply), Err(Error::SessionTokenInvalid));
}

#[test]
fn transport_failure_passes_through() {
    let reply: GatewayReply<i64> = GatewayReply::TransportFailed("connection reset".to_string());
    assert_eq!(classify_reply(reply), Err(Error::Transport("connection reset".to_string())));
}

/// A remote business error is surfaced on the very first attempt: the
/// machine finishes at once, with that error, and asks for nothing more.
#[test]
fn non_auth_error_finishes_without_retry() {
    let mut machine: ReqMachine<i64> = ReqMachine::new(Some("TOKEN".to_string()));
    let mut calls = 0;
    match machine.next_action() {
        ReqAction::CallGateway(_) => {
            calls += 1;
            machine.on_call_result(classify_reply(GatewayReply::Envelope(envelope(
                None,
                Some(RpcError { code: -32099, message: errorCode::TOO_MANY_REQUESTS }),
            ))));
        }
        _ => panic!("a caller holding a token starts with a business call"),
    }
    assert!(matches!(machine.next_action(), ReqAction::Finished));
    assert_eq!(calls, 1);
    assert_eq!(
        machine.into_result(),
        Err(Error::APINGException(errorCode::TOO_MANY_REQUESTS))
    );
}

/// With an empty token slot, the machine heads for the lock and login; it
/// never asks for a business call first.
#[test]
fn empty_slot_asks_for_login_before_any_call() {
    let machine: ReqMachine<i64> = ReqMachine::new(None);
    assert!(matches!(machine.next_action(), ReqAction::AcquireWriteLock));
}

/// A caller that observed a newer token never presents the older one
/// again.
#[test]
fn adopted_token_replaces_the_stale_one_for_good() {
    let cell: Option<String> = Some("T2".to_string());
    let mut machine: ReqMachine<i64> = ReqMachine::new(Some("T1".to_string()));
    match machine.next_action() {
        ReqAction::CallGateway(token) => {
            assert_eq!(token, "T1");
            machine.on_call_result(Err(Error::SessionTokenInvalid));
        }
        _ => panic!("expected a business call first"),
    }
    assert!(matches!(machine.next_action(), ReqAction::AcquireWriteLock));
    machine.on_write_lock(&cell);
    match machine.next_action() {
        ReqAction::CallGateway(token) => assert_eq!(token, "T2"),
        _ => panic!("expected a retry with the adopted token"),
    }
}

#[test]
fn login_with_token_succeeds() {
    let resp = LoginResponse {
        sessionToken: Some("SESSION".to_string()),
        loginStatus: "SUCCESS".to_string(),
    };
    assert_eq!(login_outcome(resp), Ok("SESSION".to_string()));
}

#[test]
fn login_without_token_reports_the_status() {
    let resp = LoginResponse {
        sessionToken: None,
        loginStatus: "INVALID_USERNAME_OR_PASSWORD".to_string(),
    };
    assert_eq!(
        login_outcome(resp),
        Err(Error::BFLoginFailure("loginStatus: INVALID_USERNAME_OR_PASSWORD".to_string()))
    );
}

#[test]
fn keepalive_success_is_ok() {
    let resp = KeepAliveResponse {
        token: "TOKEN".to_string(),
        product: "app".to_string(),
        status: KeepAliveStatus::SUCCESS,
        error: None,
    };
    assert_eq!(keepalive_outcome(resp), Ok(()));
}

#[test]
fn keepalive_failure_carries_the_error() {
    let resp = KeepAliveResponse {
        token: "".to_string(),
        product: "app".to_string(),
        status: KeepAliveStatus::FAIL,
        error: Some(KeepAliveError::NO_SESSION),
    };
    assert_eq!(
        keepalive_outcome(resp),
        Err(Error::BFKeepAliveFailure(KeepAliveError::NO_SESSION))
    );
}

#[test]
fn hex_rendering_is_exact() {
    assert_eq!(u128_hex(0), "0");
    assert_eq!(u128_hex(10), "a");
    assert_eq!(u128_hex(255), "ff");
    assert_eq!(u128_hex(0xdeadbeef), "deadbeef");
    assert_eq!(u128_hex(u128::MAX), "ffffffffffffffffffffffffffffffff");
}

#[test]
fn request_envelope_is_stamped() {
    let req = RpcRequest::new("SportsAPING/v1.0/listEventTypes".to_string(), 42i64);
    assert_eq!(req.jsonrpc, "2.0");
    assert_eq!(req.method, "SportsAPING/v1.0/listEventTypes");
    assert_eq!(req.params, 42);
    assert!(!req.id.is_empty());
    assert!(req.id.len() <= 32);
    assert!(req.id.chars().all(|c| c.is_ascii_hexdigit() && !c.is_ascii_uppercase()));
}

#[test]
fn correlation_ids_are_fresh_per_request() {
    let a = RpcRequest::new("m".to_string(), ());
    let b = RpcRequest::new("m".to_string(), ());
    // 128 random bits: a collision would point at a broken generator
    assert_ne!(a.id, b.id);
}
