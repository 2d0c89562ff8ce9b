//! Protocol-level laws of the shared token slot.
//!
//! The write lock serializes the critical sections of concurrent callers,
//! so their interleaving is a sequence; these lemmas state what holds of
//! every such sequence.  They are phrased over the same spec functions that
//! the contracts of [`crate::session::ReqMachine`] use: `must_login` is the
//! double-check decision of `on_write_lock`, a "publish" is the slot write
//! of `on_login_result`, an "adopt" is the snapshot update of
//! `on_write_lock`, and a keep-alive wake-up corresponds to
//! [`crate::keepalive::KeepAliveMachine::on_wake`], which has no way to
//! write the slot at all.

use vstd::prelude::*;
use crate::session::must_login;

verus! {

/// The slot value after one caller's serialized critical section: a caller
/// that still finds its stale snapshot publishes the fresh token; any other
/// caller leaves the slot as it is.
pub open spec fn slot_after_refresh(
    cell: Option<Seq<char>>,
    snapshot: Option<Seq<char>>,
    fresh: Seq<char>,
) -> Option<Seq<char>> {
    if must_login(cell, snapshot) {
        Some(fresh)
    } else {
        cell
    }
}

/// How many logins are performed when callers with the given snapshots
/// pass through the write lock in this order, starting from slot value
/// `cell`, a successful login publishing `fresh`.
pub open spec fn logins_performed(
    cell: Option<Seq<char>>,
    snapshots: Seq<Option<Seq<char>>>,
    fresh: Seq<char>,
) -> nat
    decreases snapshots.len(),
{
    if snapshots.len() == 0 {
        0
    } else {
        (if must_login(cell, snapshots[0]) {
            1nat
        } else {
            0nat
        }) + logins_performed(
            slot_after_refresh(cell, snapshots[0], fresh),
            snapshots.drop_first(),
            fresh,
        )
    }
}

/// Once the slot has moved away from the stale value, no caller that still
/// holds the stale snapshot performs a login: each one adopts instead.
proof fn lemma_no_login_after_slot_moved(
    cell: Option<Seq<char>>,
    snapshots: Seq<Option<Seq<char>>>,
    stale: Option<Seq<char>>,
    fresh: Seq<char>,
)
    requires
        cell != stale,
        forall|i: int| 0 <= i < snapshots.len() ==> snapshots[i] == stale,
    ensures
        logins_performed(cell, snapshots, fresh) == 0,
    decreases snapshots.len(),
{
    if snapshots.len() > 0 {
        assert(!must_login(cell, snapshots[0]));
        assert(forall|i: int|
            0 <= i < snapshots.drop_first().len() ==> #[trigger] snapshots.drop_first()[i]
                == stale);
        lemma_no_login_after_slot_moved(cell, snapshots.drop_first(), stale, fresh);
    }
}

/// At most one login per invalidation event: when every queued caller
/// observed the same stale token, and login hands out a token different
/// from the stale one, the serialized queue performs at most one login —
/// and exactly one if the slot still holds the stale value when the first
/// caller arrives.  Every later caller finds the freshly published token
/// and adopts it without a login of its own.
pub proof fn lemma_at_most_one_login(
    cell: Option<Seq<char>>,
    snapshots: Seq<Option<Seq<char>>>,
    stale: Option<Seq<char>>,
    fresh: Seq<char>,
)
    requires
        forall|i: int| 0 <= i < snapshots.len() ==> snapshots[i] == stale,
        Some(fresh) != stale,
    ensures
        logins_performed(cell, snapshots, fresh) <= 1,
        cell == stale && snapshots.len() > 0 ==> logins_performed(cell, snapshots, fresh) == 1,
{
    if snapshots.len() > 0 {
        assert(forall|i: int|
            0 <= i < snapshots.drop_first().len() ==> #[trigger] snapshots.drop_first()[i]
                == stale);
        if must_login(cell, snapshots[0]) {
            lemma_no_login_after_slot_moved(Some(fresh), snapshots.drop_first(), stale, fresh);
        } else {
            lemma_no_login_after_slot_moved(cell, snapshots.drop_first(), stale, fresh);
        }
    }
}

/// A counter abstraction of the shared slot and one caller.  Tokens are
/// numbered by the order in which they are published into the slot; a
/// higher version is a newer token.
pub struct TokenVersions {
    /// How many tokens have been published into the shared slot.
    pub slot: nat,
    /// The version of the token this caller last observed.
    pub caller: nat,
}

/// One serialized event of the protocol, seen from one caller.
pub enum SessionEvent {
    /// Another caller publishes a fresh token under the write lock.
    PublishByOther,
    /// This caller publishes a fresh token after its own successful login.
    PublishBySelf,
    /// This caller adopts the slot's current value under the write lock.
    Adopt,
    /// The keep-alive loop wakes, idles or pings; it has no way to write
    /// the slot and never triggers a login.
    KeepAliveWake,
}

/// The effect of one event on the version counters.
pub open spec fn session_step(s: TokenVersions, e: SessionEvent) -> TokenVersions {
    match e {
        SessionEvent::PublishByOther => TokenVersions { slot: s.slot + 1, caller: s.caller },
        SessionEvent::PublishBySelf => TokenVersions { slot: s.slot + 1, caller: s.slot + 1 },
        SessionEvent::Adopt => TokenVersions { slot: s.slot, caller: s.slot },
        SessionEvent::KeepAliveWake => s,
    }
}

/// A caller can only ever hold a token that was actually published.
pub open spec fn versions_inv(s: TokenVersions) -> bool {
    s.caller <= s.slot
}

/// The state after a sequence of events.
pub open spec fn session_run(s: TokenVersions, events: Seq<SessionEvent>) -> TokenVersions
    decreases events.len(),
{
    if events.len() == 0 {
        s
    } else {
        session_run(session_step(s, events[0]), events.drop_first())
    }
}

/// Token visibility is monotone: across any sequence of events, the
/// version of the token a caller observes never decreases, so once it has
/// seen a newer token it can never observe an older one again within the
/// same client instance.
pub proof fn lemma_token_visibility_monotone(s: TokenVersions, events: Seq<SessionEvent>)
    requires
        versions_inv(s),
    ensures
        versions_inv(session_run(s, events)),
        session_run(s, events).caller >= s.caller,
    decreases events.len(),
{
    if events.len() > 0 {
        lemma_token_visibility_monotone(session_step(s, events[0]), events.drop_first());
    }
}

/// A failing or idle keep-alive cycle never changes what callers can
/// observe: a run made of keep-alive wake-ups alone leaves both the slot
/// and the caller exactly where they were.  Only the request path can
/// publish.
pub proof fn lemma_keepalive_never_forces_login(s: TokenVersions, events: Seq<SessionEvent>)
    requires
        forall|i: int| 0 <= i < events.len() ==> events[i] is KeepAliveWake,
    ensures
        session_run(s, events) == s,
    decreases events.len(),
{
    if events.len() > 0 {
        assert(forall|i: int|
            0 <= i < events.drop_first().len() ==> #[trigger] events.drop_first()[i]
                is KeepAliveWake);
        lemma_keepalive_never_forces_login(session_step(s, events[0]), events.drop_first());
    }
}

} // verus!
