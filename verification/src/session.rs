//! The session lifecycle and request-resilience layer.
//!
//! One shared, mutable "current token" slot is read by every concurrent
//! caller and written under an exclusive lock by whichever caller first
//! notices that the token has gone stale.  The retry loop of a single call
//! is verified here as an explicit state machine, [`ReqMachine`]: the
//! hosting process performs the network calls and the locking, and feeds
//! each outcome back into the machine, which decides — with a proved
//! contract — what must happen next.
//!
//! The machine implements the double-checked refresh discipline: a caller
//! that waited for the write lock first re-compares the slot against its own
//! stale snapshot, and logs in only when the slot still holds that snapshot;
//! otherwise it adopts the token that another caller already published.

use vstd::prelude::*;
use vstd::string::StringExecFns;
use crate::errors::{Error, is_auth_error, is_session_code, session_code};
use crate::json_rpc::{dec_repr, is_dec_digit, lemma_dec_repr_digits, u128_dec, RpcResponse};

verus! {

/// Fixed delay between login attempts when the identity endpoint is
/// failing, in milliseconds.  Login is retried indefinitely at this fixed
/// spacing rather than hot-looping.
pub const LOGIN_RETRY_DELAY_MILLIS: u64 = 5000;

/// The abstract value of an optional session token: the character sequence
/// it holds, if any.
pub open spec fn token_view(t: Option<String>) -> Option<Seq<char>> {
    match t {
        Some(s) => Some(s@),
        None => None,
    }
}

/// Whether two optional tokens hold the same value.
fn token_eq(a: &Option<String>, b: &Option<String>) -> (r: bool)
    ensures
        r == (token_view(*a) == token_view(*b)),
{
    match (a, b) {
        (None, None) => true,
        (Some(x), Some(y)) => x.eq(y),
        _ => false,
    }
}

/// A copy of an optional token with the same value.
fn token_clone(t: &Option<String>) -> (r: Option<String>)
    ensures
        token_view(r) == token_view(*t),
{
    match t {
        None => None,
        Some(s) => Some(s.clone()),
    }
}

/// The `X-Application` header value sent on identity-service calls (login
/// and keep-alive): a fixed prefix followed by a freshly drawn decimal
/// number, so that each process presents a distinct application name
/// there.
pub fn identity_app_header() -> (s: String)
    ensures
        s@.len() > "schroedinger_"@.len(),
        s@.subrange(0, "schroedinger_"@.len() as int) == "schroedinger_"@,
        forall|i: int| "schroedinger_"@.len() <= i < s@.len() ==> is_dec_digit(#[trigger] s@[i]),
{
    let nonce: u128 = rand::random();
    let digits = u128_dec(nonce);
    let s = "schroedinger_".to_owned().concat(digits.as_str());
    proof {
        lemma_dec_repr_digits(nonce as nat);
        assert(s@.subrange(0, "schroedinger_"@.len() as int) =~= "schroedinger_"@);
        assert(forall|i: int|
            "schroedinger_"@.len() <= i < s@.len() ==> s@[i] == dec_repr(nonce as nat)[
                i - "schroedinger_"@.len()
            ]);
    }
    s
}

/// Decoded body of a certificate login response.
#[allow(non_snake_case)]
pub struct LoginResponse {
    pub sessionToken: Option<String>,
    pub loginStatus: String,
}

/// Turns a decoded login response into the attempt's outcome.  The remote
/// service hands out a token only when its status field indicates success;
/// any other status is a login failure carrying that status for
/// diagnostics.
pub fn login_outcome(resp: LoginResponse) -> (r: Result<String, Error>)
    ensures
        resp.sessionToken matches Some(t) ==> r == Result::<String, Error>::Ok(t),
        resp.sessionToken is None ==> (r matches Err(e) && e matches Error::BFLoginFailure(m)
            && m@ == "loginStatus: "@ + resp.loginStatus@),
{
    match resp.sessionToken {
        Some(token) => Ok(token),
        None => Err(
            Error::BFLoginFailure(
                "loginStatus: ".to_owned().concat(resp.loginStatus.as_str()),
            ),
        ),
    }
}

/// What came back from one business call at the transport level, before
/// classification.
pub enum GatewayReply<T> {
    /// The endpoint answered and the body decoded into an envelope.
    Envelope(RpcResponse<T>),
    /// The transport refused the token as a header value outright; this
    /// happens when the slot holds a malformed token and counts as an
    /// authentication failure.
    BadTokenHeader,
    /// Network, TLS or decoding failure; the message describes it.
    TransportFailed(String),
}

/// Classifies a gateway reply into the call's outcome.  A remote error code
/// in the session-invalid set, like a rejected token header, becomes an
/// authentication failure to be resolved by refresh; every other error
/// passes through to the caller unchanged.
pub fn classify_reply<T>(reply: GatewayReply<T>) -> (r: Result<T, Error>)
    ensures
        reply matches GatewayReply::Envelope(resp) ==> {
            &&& (resp.error matches Some(e) && is_session_code(e.message) ==> r
                == Result::<T, Error>::Err(Error::SessionTokenInvalid))
            &&& (resp.error matches Some(e) ==> (!is_session_code(e.message) ==> r
                == Result::<T, Error>::Err(Error::APINGException(e.message))))
            &&& (resp.error is None && resp.result is Some ==> r == Result::<T, Error>::Ok(
                resp.result.unwrap(),
            ))
            &&& (resp.error is None && resp.result is None ==> r == Result::<T, Error>::Err(
                Error::JSONRPCError,
            ))
        },
        reply is BadTokenHeader ==> r == Result::<T, Error>::Err(Error::SessionTokenInvalid),
        reply matches GatewayReply::TransportFailed(m) ==> r == Result::<T, Error>::Err(
            Error::Transport(m),
        ),
{
    match reply {
        GatewayReply::Envelope(resp) => match resp.into_inner() {
            Ok(v) => Ok(v),
            Err(Error::APINGException(code)) => {
                if session_code(code) {
                    Err(Error::SessionTokenInvalid)
                } else {
                    Err(Error::APINGException(code))
                }
            }
            Err(e) => Err(e),
        },
        GatewayReply::BadTokenHeader => Err(Error::SessionTokenInvalid),
        GatewayReply::TransportFailed(m) => Err(Error::Transport(m)),
    }
}

/// Where a single call stands in its retry loop.
pub enum ReqPhase<T> {
    /// Ready to call the gateway with the machine's token.
    Attempt,
    /// The token is missing or was rejected: the write lock is needed.
    Refresh,
    /// Holding the write lock and performing login until it succeeds.
    LoggingIn,
    /// The call's outcome is decided.
    Done(Result<T, Error>),
}

/// What the hosting process must do next for this call.
pub enum ReqAction {
    /// Perform the business call, authenticated with this token.
    CallGateway(String),
    /// Acquire the exclusive lock on the token slot, then report its
    /// contents through [`ReqMachine::on_write_lock`].
    AcquireWriteLock,
    /// Perform one login round-trip, then report the outcome through
    /// [`ReqMachine::on_login_result`].
    AttemptLogin,
    /// The call is over; take the outcome with [`ReqMachine::into_result`].
    Finished,
}

/// The decision taken under the write lock.
pub enum RefreshDecision {
    /// Another caller already refreshed the token: adopt it, release the
    /// lock, retry the call.  No login is performed by this caller.
    AdoptNewToken,
    /// The slot still holds this caller's stale snapshot: this caller is
    /// the one that performs login, keeping the lock.
    MustLogin,
}

/// What follows one login attempt.
pub enum LoginStep {
    /// Login succeeded; the fresh token is published in the slot and the
    /// lock can be released.
    Published,
    /// Login failed; sleep for the given number of milliseconds, then try
    /// again.  Login is never given up.
    RetryAfterDelay(u64),
}

/// True when the slot still holds the stale snapshot that sent this caller
/// to the write lock, so the caller must perform login itself; false when
/// another caller has already replaced it.
pub open spec fn must_login(cell: Option<Seq<char>>, snapshot: Option<Seq<char>>) -> bool {
    cell == snapshot
}

/// The phase that follows a classified call outcome: success and non-auth
/// errors finish the call, an authentication failure sends the caller to
/// the refresh path.
pub open spec fn call_result_phase<T>(result: Result<T, Error>) -> ReqPhase<T> {
    match result {
        Ok(v) => ReqPhase::Done(Ok(v)),
        Err(e) => if is_auth_error(e) {
            ReqPhase::Refresh
        } else {
            ReqPhase::Done(Err(e))
        },
    }
}

/// The retry loop of one `execute` call, as an explicit state machine.
///
/// The machine holds the caller's private snapshot of the session token and
/// the phase of the loop.  It performs no network call and takes no lock
/// itself: it tells the hosting process what to do next and digests each
/// outcome the process reports back.
pub struct ReqMachine<T> {
    token: Option<String>,
    phase: ReqPhase<T>,
}

impl<T> ReqMachine<T> {
    /// The caller's token snapshot.
    pub closed spec fn spec_token(&self) -> Option<Seq<char>> {
        token_view(self.token)
    }

    /// The phase of the retry loop.
    pub closed spec fn spec_phase(&self) -> ReqPhase<T> {
        self.phase
    }

    /// A machine only ever attempts a business call while it actually holds
    /// a token: an empty snapshot heads for login first.
    pub open spec fn wf(&self) -> bool {
        self.spec_phase() is Attempt ==> self.spec_token() is Some
    }

    /// Starts one call from a snapshot of the shared token slot, taken
    /// under a read lock and released before any network activity.  With no
    /// token present the machine goes straight to the refresh path, without
    /// a doomed network round-trip.
    pub fn new(snapshot: Option<String>) -> (m: ReqMachine<T>)
        ensures
            m.wf(),
            m.spec_token() == token_view(snapshot),
            token_view(snapshot) is Some ==> m.spec_phase() is Attempt,
            token_view(snapshot) is None ==> m.spec_phase() is Refresh,
    {
        match snapshot {
            Some(t) => ReqMachine { token: Some(t), phase: ReqPhase::Attempt },
            None => ReqMachine { token: None, phase: ReqPhase::Refresh },
        }
    }

    /// What the hosting process must do next, determined by the phase
    /// alone.
    pub fn next_action(&self) -> (a: ReqAction)
        requires
            self.wf(),
        ensures
            self.spec_phase() is Attempt ==> (a matches ReqAction::CallGateway(t)
                && self.spec_token() == Some(t@)),
            self.spec_phase() is Refresh ==> a is AcquireWriteLock,
            self.spec_phase() is LoggingIn ==> a is AttemptLogin,
            self.spec_phase() is Done ==> a is Finished,
    {
        match &self.phase {
            ReqPhase::Attempt => match &self.token {
                Some(t) => ReqAction::CallGateway(t.clone()),
                None => unreached(),
            },
            ReqPhase::Refresh => ReqAction::AcquireWriteLock,
            ReqPhase::LoggingIn => ReqAction::AttemptLogin,
            ReqPhase::Done(_) => ReqAction::Finished,
        }
    }

    /// Digests the classified outcome of a business call (see
    /// [`classify_reply`]).  Success and non-auth errors finish the call —
    /// an error outside the session-invalid set is surfaced on the first
    /// attempt, with no retry; an authentication failure sends the caller
    /// to the refresh path.
    pub fn on_call_result(&mut self, result: Result<T, Error>)
        requires
            old(self).wf(),
            old(self).spec_phase() is Attempt,
        ensures
            final(self).wf(),
            final(self).spec_token() == old(self).spec_token(),
            final(self).spec_phase() == call_result_phase(result),
    {
        match result {
            Ok(v) => {
                self.phase = ReqPhase::Done(Ok(v));
            }
            Err(e) => {
                if crate::errors::auth_error(&e) {
                    self.phase = ReqPhase::Refresh;
                } else {
                    self.phase = ReqPhase::Done(Err(e));
                }
            }
        }
    }

    /// The double-checked refresh, run while holding the write lock on the
    /// token slot, with `cell` the slot's current contents.  If the slot no
    /// longer holds this caller's snapshot, another caller has refreshed it
    /// concurrently: adopt the new value and retry without logging in.
    /// Only when the slot still holds the stale snapshot does this caller
    /// proceed to login.  The slot itself is not written here.
    pub fn on_write_lock(&mut self, cell: &Option<String>) -> (d: RefreshDecision)
        requires
            old(self).wf(),
            old(self).spec_phase() is Refresh,
        ensures
            final(self).wf(),
            !must_login(token_view(*cell), old(self).spec_token()) ==> {
                &&& d is AdoptNewToken
                &&& final(self).spec_token() == token_view(*cell)
                &&& (token_view(*cell) is Some ==> final(self).spec_phase() is Attempt)
                &&& (token_view(*cell) is None ==> final(self).spec_phase() is Refresh)
            },
            must_login(token_view(*cell), old(self).spec_token()) ==> {
                &&& d is MustLogin
                &&& final(self).spec_token() == old(self).spec_token()
                &&& final(self).spec_phase() is LoggingIn
            },
    {
        if !token_eq(cell, &self.token) {
            self.token = token_clone(cell);
            match &self.token {
                Some(_) => {
                    self.phase = ReqPhase::Attempt;
                }
                None => {
                    self.phase = ReqPhase::Refresh;
                }
            }
            RefreshDecision::AdoptNewToken
        } else {
            self.phase = ReqPhase::LoggingIn;
            RefreshDecision::MustLogin
        }
    }

    /// Digests one login attempt, still under the write lock, with `cell`
    /// the slot's contents.  A fresh token is published into the slot and
    /// adopted for the retry; a failed login leaves the slot untouched and
    /// asks for another attempt after the fixed delay — login errors never
    /// surface here, because login is retried indefinitely by design.
    pub fn on_login_result(&mut self, cell: &mut Option<String>, outcome: Result<String, Error>)
        -> (s: LoginStep)
        requires
            old(self).wf(),
            old(self).spec_phase() is LoggingIn,
        ensures
            final(self).wf(),
            outcome matches Ok(t) ==> {
                &&& s is Published
                &&& token_view(*final(cell)) == Some(t@)
                &&& final(self).spec_token() == Some(t@)
                &&& final(self).spec_phase() is Attempt
            },
            outcome is Err ==> {
                &&& s == LoginStep::RetryAfterDelay(LOGIN_RETRY_DELAY_MILLIS)
                &&& *final(cell) == *old(cell)
                &&& final(self).spec_token() == old(self).spec_token()
                &&& final(self).spec_phase() is LoggingIn
            },
    {
        match outcome {
            Ok(token) => {
                *cell = Some(token.clone());
                self.token = Some(token);
                self.phase = ReqPhase::Attempt;
                LoginStep::Published
            }
            Err(_) => LoginStep::RetryAfterDelay(LOGIN_RETRY_DELAY_MILLIS),
        }
    }

    /// Takes the call's outcome once the machine is done.
    pub fn into_result(self) -> (r: Result<T, Error>)
        requires
            self.spec_phase() is Done,
        ensures
            self.spec_phase() == ReqPhase::Done(r),
    {
        match self.phase {
            ReqPhase::Done(r) => r,
            _ => unreached(),
        }
    }
}

/// No request is sent without attempting a token: a machine whose snapshot
/// is empty is never in the attempting phase, so by the contract of
/// [`ReqMachine::next_action`] it never asks for a gateway call; it heads
/// for the lock and hence for login first.
pub proof fn lemma_empty_token_never_calls<T>(m: ReqMachine<T>)
    requires
        m.wf(),
        m.spec_token() is None,
    ensures
        !(m.spec_phase() is Attempt),
{
}

/// Non-auth errors are not retried: a classified outcome that is an error
/// outside the authentication set finishes the call at once, carrying that
/// very error, so no further gateway call, lock acquisition or login can
/// follow.
pub proof fn lemma_non_auth_error_not_retried<T>(result: Result<T, Error>)
    requires
        result matches Err(e) && !is_auth_error(e),
    ensures
        call_result_phase(result) == ReqPhase::<T>::Done(result),
{
}

} // verus!
