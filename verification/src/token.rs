//! The cancellation token: a single shared "stop" flag, written once to true
//! by the monitor and read cooperatively by every worker before it starts a
//! new generator invocation. Once set it is never cleared for the lifetime of
//! the pool, and setting it again changes nothing.

use vstd::prelude::*;

verus! {

/// A write-once-to-true stop signal. It carries no payload: only the boolean
/// "stop" meaning.
pub struct CancellationToken {
    cancelled: bool,
}

/// The state a token has after a cancellation request, whatever its state was
/// before: the flag is set and nothing else exists to change.
pub closed spec fn after_cancel(t: CancellationToken) -> CancellationToken {
    CancellationToken { cancelled: true }
}

impl CancellationToken {
    /// Whether the stop signal has been raised.
    pub closed spec fn spec_is_cancelled(&self) -> bool {
        self.cancelled
    }

    /// A fresh token: no cancellation has been requested yet.
    pub fn new() -> (t: Self)
        ensures
            !t.spec_is_cancelled(),
    {
        CancellationToken { cancelled: false }
    }

    /// Raise the stop signal. Idempotent and write-once: the result is
    /// `after_cancel` of the old state, so a token that was already cancelled
    /// is left exactly as it was.
    pub fn cancel(&mut self)
        ensures
            *final(self) == after_cancel(*old(self)),
            final(self).spec_is_cancelled(),
            old(self).spec_is_cancelled() ==> *final(self) == *old(self),
    {
        self.cancelled = true;
    }

    /// Read the flag.
    pub fn is_cancelled(&self) -> (r: bool)
        ensures
            r == self.spec_is_cancelled(),
    {
        self.cancelled
    }
}

/// Cancelling is idempotent: requesting cancellation any number of times
/// beyond the first leaves the token in the same state as the first request,
/// so a race between two qualifying reports cannot produce a second,
/// different shutdown.
pub proof fn lemma_cancel_idempotent(t: CancellationToken)
    ensures
        after_cancel(after_cancel(t)) == after_cancel(t),
        after_cancel(t).spec_is_cancelled(),
{
}

/// The token is write-once: no reachable transition clears it. Once a token
/// is cancelled, a further cancel request keeps `spec_is_cancelled` true.
pub proof fn lemma_cancel_write_once(t: CancellationToken)
    requires
        t.spec_is_cancelled(),
    ensures
        after_cancel(t) == t,
{
}

} // verus!
