//! Error taxonomy of the client.
//!
//! Five kinds of failure are kept apart so that callers can react to each
//! programmatically: transport failures, authentication failures (resolved
//! internally by the session layer), login failures, remote business errors,
//! and malformed response envelopes.

use vstd::prelude::*;
use crate::keepalive::KeepAliveError;

verus! {

/// Error codes that the remote service reports inside a response envelope.
#[allow(non_camel_case_types)]
#[derive(Debug, Clone, Copy, PartialEq, Eq, Structural)]
pub enum errorCode {
    TOO_MUCH_DATA,
    INVALID_INPUT_DATA,
    INVALID_SESSION_INFORMATION,
    NO_APP_KEY,
    NO_SESSION,
    UNEXPECTED_ERROR,
    INVALID_APP_KEY,
    TOO_MANY_REQUESTS,
    SERVICE_BUSY,
    TIMEOUT_ERROR,
    REQUEST_SIZE_EXCEEDS_LIMIT,
    ACCESS_DENIED,
}

/// True exactly for the remote error codes that mean "the session token is
/// invalid or expired".  These are the only codes the session layer
/// interprets; every other code passes through to the caller untouched.
pub open spec fn is_session_code(c: errorCode) -> bool {
    c == errorCode::INVALID_SESSION_INFORMATION || c == errorCode::NO_SESSION
}

/// Returns whether `c` is one of the "session invalid/expired" codes.
pub fn session_code(c: errorCode) -> (r: bool)
    ensures
        r == is_session_code(c),
{
    match c {
        errorCode::INVALID_SESSION_INFORMATION => true,
        errorCode::NO_SESSION => true,
        _ => false,
    }
}

/// Everything that can go wrong with a call through the client.
#[derive(Debug, Clone, PartialEq, Eq)]
pub enum Error {
    /// No session token has ever been obtained; login is required before a
    /// business call can be made.
    SessionTokenNotPresent,
    /// The current session token was rejected; a fresh login will replace it.
    SessionTokenInvalid,
    /// Network or TLS failure reaching an endpoint, or an undecodable
    /// response body; the message describes the transport's complaint.
    Transport(String),
    /// The remote service reported a business error code.
    APINGException(errorCode),
    /// The response envelope carried neither a result nor an error.
    JSONRPCError,
    /// The login endpoint rejected the credentials; the payload carries the
    /// reported login status for diagnostics.
    BFLoginFailure(String),
    /// The keep-alive endpoint reported a failure.
    BFKeepAliveFailure(KeepAliveError),
}

/// True exactly for the two error values that the session layer treats as
/// authentication failures: a missing token and a rejected token.  Only
/// these trigger the refresh-and-retry path.
pub open spec fn is_auth_error(e: Error) -> bool {
    e == Error::SessionTokenNotPresent || e == Error::SessionTokenInvalid
}

/// Returns whether `e` is an authentication failure.
pub fn auth_error(e: &Error) -> (r: bool)
    ensures
        r == is_auth_error(*e),
{
    match e {
        Error::SessionTokenNotPresent => true,
        Error::SessionTokenInvalid => true,
        _ => false,
    }
}

} // verus!
