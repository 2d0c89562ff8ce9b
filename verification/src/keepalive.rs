//! Keep-alive: periodically pings the identity service so that an idle but
//! valid session token is not expired server-side.
//!
//! The decision logic runs here as an explicit state machine; the hosting
//! process owns the actual timer, the shutdown channel and the network call,
//! and feeds each wake-up into [`KeepAliveMachine::on_wake`].  By design the
//! machine never initiates a login and never touches the shared token slot:
//! its methods only ever read a snapshot of the token.

use vstd::prelude::*;
use crate::errors::Error;

verus! {

/// How often the keep-alive loop wakes up on its own, in milliseconds.
pub const KEEPALIVE_INTERVAL_MILLIS: u64 = 60000;

/// Error detail reported by the keep-alive endpoint.
#[allow(non_camel_case_types)]
#[derive(Debug, Clone, Copy, PartialEq, Eq, Structural)]
pub enum KeepAliveError {
    NONE,
    INPUT_VALIDATION_ERROR,
    INTERNAL_ERROR,
    NO_SESSION,
}

/// Overall status reported by the keep-alive endpoint.
#[allow(non_camel_case_types)]
#[derive(Debug, Clone, Copy, PartialEq, Eq, Structural)]
pub enum KeepAliveStatus {
    SUCCESS,
    FAIL,
}

/// Decoded body of a keep-alive response.
#[derive(Debug, Clone)]
pub struct KeepAliveResponse {
    pub token: String,
    pub product: String,
    pub status: KeepAliveStatus,
    pub error: Option<KeepAliveError>,
}

/// Turns a decoded keep-alive response into the call's outcome: success, or
/// a keep-alive failure carrying the reported error detail.
pub fn keepalive_outcome(resp: KeepAliveResponse) -> (r: Result<(), Error>)
    requires
        resp.status is FAIL ==> resp.error is Some,
    ensures
        resp.status is SUCCESS ==> r == Result::<(), Error>::Ok(()),
        resp.status is FAIL ==> r == Result::<(), Error>::Err(
            Error::BFKeepAliveFailure(resp.error.unwrap()),
        ),
{
    match resp.status {
        KeepAliveStatus::SUCCESS => Ok(()),
        KeepAliveStatus::FAIL => Err(Error::BFKeepAliveFailure(resp.error.unwrap())),
    }
}

/// What woke the keep-alive loop: the one-shot shutdown signal, or the
/// polling interval elapsing.
#[derive(Debug, Clone, Copy, PartialEq, Eq, Structural)]
pub enum KeepAliveWake {
    Shutdown,
    Interval,
}

/// What the keep-alive loop must do next.
#[derive(Debug, Clone, PartialEq, Eq)]
pub enum KeepAliveAction {
    /// The shutdown signal was observed: leave the loop, make no further
    /// calls.
    Exit,
    /// Nothing to keep alive this cycle (no token has been obtained yet).
    Idle,
    /// Call the keep-alive endpoint with this token.
    Ping(String),
}

/// State of the background keep-alive loop.
///
/// The machine records a purely local hint about a token that failed its
/// last keep-alive call.  It deliberately has no way to write the shared
/// token slot: a failing keep-alive never clears or replaces the token, and
/// never triggers a login; refresh happens only on the request path.
pub struct KeepAliveMachine {
    /// Token value whose most recent keep-alive call failed, if any.
    expired_token: Option<String>,
    /// Whether the shutdown signal has been observed.
    stopped: bool,
}

impl KeepAliveMachine {
    /// Token value whose most recent keep-alive call failed, if any.
    pub closed spec fn spec_expired_token(&self) -> Option<Seq<char>> {
        match self.expired_token {
            Some(ref t) => Some(t@),
            None => None,
        }
    }

    /// Whether the shutdown signal has been observed.
    pub closed spec fn spec_stopped(&self) -> bool {
        self.stopped
    }

    /// A fresh machine: no failure hint, not yet shut down.
    pub fn new() -> (m: KeepAliveMachine)
        ensures
            m.spec_expired_token() is None,
            !m.spec_stopped(),
    {
        KeepAliveMachine { expired_token: None, stopped: false }
    }

    /// Whether the shutdown signal has been observed.
    pub fn is_stopped(&self) -> (r: bool)
        ensures
            r == self.spec_stopped(),
    {
        self.stopped
    }

    /// The local failure hint: the token value whose most recent
    /// keep-alive call failed, if any.
    pub fn expired_hint(&self) -> (r: &Option<String>)
        ensures
            (*r matches Some(t) ==> self.spec_expired_token() == Some(t@)),
            (*r is None ==> self.spec_expired_token() is None),
    {
        &self.expired_token
    }

    /// One wake-up of the loop, given a snapshot of the shared token.
    ///
    /// A shutdown signal always wins and stops the machine.  On an interval
    /// wake-up the machine asks for a ping exactly when a token is present;
    /// a token that already failed keep-alive is pinged again rather than
    /// suppressed.  The shared slot itself is never written.
    pub fn on_wake(&mut self, wake: KeepAliveWake, snapshot: &Option<String>) -> (a: KeepAliveAction)
        requires
            !old(self).spec_stopped(),
        ensures
            final(self).spec_expired_token() == old(self).spec_expired_token(),
            wake is Shutdown ==> a is Exit && final(self).spec_stopped(),
            wake is Interval ==> final(self).spec_stopped() == old(self).spec_stopped(),
            wake is Interval && snapshot is None ==> a is Idle,
            (wake is Interval && snapshot is Some) ==> a == KeepAliveAction::Ping(
                snapshot.unwrap(),
            ),
    {
        match wake {
            KeepAliveWake::Shutdown => {
                self.stopped = true;
                KeepAliveAction::Exit
            }
            KeepAliveWake::Interval => {
                match snapshot {
                    None => KeepAliveAction::Idle,
                    Some(token) => KeepAliveAction::Ping(token.clone()),
                }
            }
        }
    }

    /// Records the outcome of a ping.  A failure only updates the local
    /// hint that this token value is now known to be expired; a success
    /// changes nothing.
    pub fn on_ping_result(&mut self, token: String, succeeded: bool)
        ensures
            final(self).spec_stopped() == old(self).spec_stopped(),
            succeeded ==> final(self).spec_expired_token() == old(self).spec_expired_token(),
            !succeeded ==> final(self).spec_expired_token() == Some(token@),
    {
        if !succeeded {
            self.expired_token = Some(token);
        }
    }
}

} // verus!
