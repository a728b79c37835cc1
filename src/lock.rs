//! The locking facility the rendezvous is built on, with what is relied on of it.
//!
//! A guard of `parking_lot` cannot be named in verified code, so each item
//! below takes the lock, does its one piece of work on the flag under it, and
//! releases it before returning.

use parking_lot::{Condvar, Mutex};
use std::sync::Arc;
use std::time::Instant;
use vstd::prelude::*;

verus! {

#[verifier::external_type_specification]
#[verifier::external_body]
#[verifier::reject_recursive_types(R)]
#[verifier::reject_recursive_types(T)]
pub struct ExLockApiMutex<R, T: ?Sized>(parking_lot::lock_api::Mutex<R, T>);

#[verifier::external_type_specification]
#[verifier::external_body]
pub struct ExRawMutex(parking_lot::RawMutex);

#[verifier::external_type_specification]
#[verifier::external_body]
pub struct ExCondvar(parking_lot::Condvar);

#[verifier::external_type_specification]
#[verifier::external_body]
pub struct ExInstant(std::time::Instant);

/// Whether a thread is still to wait, given the flag it sees under the lock.
pub fn still_waiting(woken: bool) -> (r: bool)
    ensures
        r == !woken,
{
    !woken
}

/// Relies on `parking_lot::Mutex::new`: a fresh, unlocked mutex holding `v`.
#[verifier::external_body]
pub(crate) fn new_flag(v: bool) -> Mutex<bool> {
    Mutex::new(v)
}

/// Relies on `parking_lot::Condvar::new`: a condition variable with no waiter.
#[verifier::external_body]
pub(crate) fn new_condvar() -> Condvar {
    Condvar::new()
}

/// Relies on `Arc::clone`: one more owner of the same allocation.
#[verifier::external_body]
pub(crate) fn share<T>(a: &Arc<T>) -> (r: Arc<T>)
    ensures
        r == *a,
{
    Arc::clone(a)
}

/// Relies on `parking_lot::Mutex::lock`: blocks until the lock is held, then
/// writes `v` through the guard and releases it.
#[verifier::external_body]
pub(crate) fn store_flag(m: &Mutex<bool>, v: bool) {
    *m.lock() = v;
}

/// Relies on `parking_lot::Condvar::notify_one`: wakes at most one waiter and
/// tells whether it woke one.
#[verifier::external_body]
pub(crate) fn notify_one(c: &Condvar) -> bool {
    c.notify_one()
}

/// Relies on `parking_lot::Condvar::wait_while`: under the lock of `m`, parks
/// on `c` for as long as `still_waiting` holds of the flag, re-checking it
/// after every wakeup, spurious ones included. It returns only once the check
/// fails, and hands back the flag it last saw under the lock.
#[verifier::external_body]
pub(crate) fn wait_while_lowered(m: &Mutex<bool>, c: &Condvar) -> (woken: bool)
    ensures
        woken,
{
    let mut g = m.lock();
    c.wait_while(&mut g, |w: &mut bool| still_waiting(*w));
    *g
}

/// Relies on `parking_lot::Condvar::wait_while_until`: as `wait_while_lowered`,
/// but it also stops at `deadline`. Hands back whether the wait timed out and
/// the flag seen under the lock when it returned; a wait that did not time out
/// stopped because the check failed.
#[verifier::external_body]
pub(crate) fn wait_while_lowered_until(m: &Mutex<bool>, c: &Condvar, deadline: Instant) -> (r: (
    bool,
    bool,
))
    ensures
        !r.0 ==> r.1,
{
    let mut g = m.lock();
    let res = c.wait_while_until(&mut g, |w: &mut bool| still_waiting(*w), deadline);
    (res.timed_out(), *g)
}

} // verus!
