//! The wait / signal pair and the state it shares.

use crate::lock::{
    new_condvar, new_flag, notify_one, share, store_flag, wait_while_lowered,
    wait_while_lowered_until,
};
use parking_lot::{Condvar, Mutex};
use std::sync::Arc;
use std::time::Instant;
use vstd::prelude::*;

verus! {

/// The state one wait / signal pair shares: the woken flag, which only ever
/// goes from `false` to `true`, and the condition variable a waiter parks on.
pub struct Shared {
    woken: Mutex<bool>,
    cvar: Condvar,
}

/// The signalling side of a pair. It may be cloned and sent to any thread;
/// every clone signals the same waiter.
pub struct SignalToken {
    inner: Arc<Shared>,
}

/// The waiting side of a pair: the right to wait once. Both ways of waiting
/// consume it.
pub struct WaitToken {
    inner: Arc<Shared>,
}

impl SignalToken {
    /// The shared state this token signals.
    pub closed spec fn shared(&self) -> Shared {
        *self.inner
    }

    /// Sets the woken flag under the lock and wakes the waiter, if one is
    /// parked. Signalling never fails, and a second signal changes nothing.
    pub fn signal(&self) -> (r: bool)
        ensures
            r,
    {
        store_flag(&self.inner.woken, true);
        let _ = notify_one(&self.inner.cvar);
        true
    }

    /// Gives up the token as the owned reference to its shared state, without
    /// releasing that reference.
    pub fn into_shared(self) -> (r: Arc<Shared>)
        ensures
            *r == self.shared(),
    {
        self.inner
    }

    /// Takes back a token from an owned reference to its shared state.
    pub fn from_shared(inner: Arc<Shared>) -> (r: SignalToken)
        ensures
            r.shared() == *inner,
    {
        SignalToken { inner }
    }
}

impl Clone for SignalToken {
    /// Another token for the same shared state.
    fn clone(&self) -> (r: Self)
        ensures
            r.shared() == self.shared(),
    {
        SignalToken { inner: share(&self.inner) }
    }
}

impl WaitToken {
    /// The shared state this token waits on.
    pub closed spec fn shared(&self) -> Shared {
        *self.inner
    }

    /// Whether `s` signals the state this token waits on.
    pub open spec fn pairs_with(&self, s: SignalToken) -> bool {
        self.shared() == s.shared()
    }

    /// Blocks until the pair has been signalled. Returns at once if it already
    /// was; a spurious wakeup sends the thread back to wait.
    pub fn wait(self) {
        let woken = wait_while_lowered(&self.inner.woken, &self.inner.cvar);
        assert(woken);
    }

    /// Blocks until the pair has been signalled or `end` has passed, whichever
    /// comes first. Returns the flag as seen under the lock when the wait ended:
    /// `true` when woken by a signal, `false` when the deadline passed first.
    pub fn wait_max_until(self, end: Instant) -> bool {
        let (timed_out, woken) = wait_while_lowered_until(&self.inner.woken, &self.inner.cvar, end);
        wait_outcome(timed_out, woken)
    }
}

/// What a bounded wait reports, from whether the condition variable timed out
/// and the flag seen under the lock afterwards. A wait that did not time out
/// ended because the flag was set; one that did reports the flag as it is, so
/// that a signal that came at the deadline is not reported as a timeout.
pub fn wait_outcome(timed_out: bool, woken: bool) -> (r: bool)
    requires
        !timed_out ==> woken,
    ensures
        r == woken,
{
    if timed_out {
        woken
    } else {
        true
    }
}

/// A token taken back from the reference that another token gave up signals
/// the same waiter as the token that gave it up.
pub proof fn lemma_round_trip_keeps_pairing(
    w: WaitToken,
    t: SignalToken,
    given_up: Arc<Shared>,
    back: SignalToken,
)
    requires
        w.pairs_with(t),
        *given_up == t.shared(),
        back.shared() == *given_up,
    ensures
        w.pairs_with(back),
{
}

/// A fresh pair sharing one new, unsignalled state.
pub fn tokens() -> (r: (WaitToken, SignalToken))
    ensures
        r.0.pairs_with(r.1),
{
    let inner = Arc::new(Shared { woken: new_flag(false), cvar: new_condvar() });
    let wait_token = WaitToken { inner: share(&inner) };
    let signal_token = SignalToken { inner };
    (wait_token, signal_token)
}

} // verus!
