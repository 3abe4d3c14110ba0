//! The renewable authorization session: when to renew it, and what the
//! visible snapshot becomes after a renewal attempt.

use vstd::prelude::*;

verus! {

/// Age, in seconds, at which an authorization is renewed: sixteen hours.
pub const RENEWAL_AGE_SECS: u64 = 57600;

/// Seconds between two checks of the session's age.
pub const RENEWAL_CHECK_SECS: u64 = 30;

/// Whether an authorization issued at `issued_at` is due for renewal at `now`.
pub open spec fn is_renewal_due(issued_at: int, now: int) -> bool {
    now - issued_at >= RENEWAL_AGE_SECS
}

/// Decides, on a background tick, whether to authorize again.
pub fn renewal_due(issued_at: u64, now: u64) -> (r: bool)
    ensures
        r == is_renewal_due(issued_at as int, now as int),
{
    now >= issued_at && now - issued_at >= RENEWAL_AGE_SECS
}

/// One immutable view of the session: the authorization and when it was
/// obtained. A renewal builds a new snapshot; it never edits one.
pub struct SessionSnapshot<A> {
    pub authorization: A,
    pub issued_at: u64,
}

impl<A> SessionSnapshot<A> {
    pub fn new(authorization: A, issued_at: u64) -> (r: Self)
        ensures
            r.authorization == authorization,
            r.issued_at == issued_at,
    {
        SessionSnapshot { authorization, issued_at }
    }

    /// Whether this snapshot is to be renewed at `now`.
    pub fn needs_renewal(&self, now: u64) -> (r: bool)
        ensures
            r == is_renewal_due(self.issued_at as int, now as int),
    {
        renewal_due(self.issued_at, now)
    }

    /// The snapshot to publish after a renewal attempt that ended at `now`:
    /// a fresh one on success; on failure the current one, which is served
    /// until a later attempt succeeds.
    pub fn after_renewal(self, outcome: Option<A>, now: u64) -> (r: Self)
        ensures
            outcome is Some ==> r.authorization == outcome.unwrap() && r.issued_at == now,
            outcome is None ==> r == self,
    {
        match outcome {
            Some(authorization) => SessionSnapshot { authorization, issued_at: now },
            None => self,
        }
    }
}

/// A failed renewal leaves the session as it was, so that it is still due and
/// the next tick tries again; a successful one resets its age.
pub proof fn lemma_failed_renewal_retries(issued_at: u64, now: u64, later: u64)
    requires
        is_renewal_due(issued_at as int, now as int),
        now <= later,
    ensures
        is_renewal_due(issued_at as int, later as int),
        !is_renewal_due(now as int, now as int),
{
}

} // verus!
