//! The shared timing gate: the instant of the last rate-limited remote
//! request, behind a mutually exclusive lock with poison recovery.
//!
//! The stored value is opaque to verification; what is verified here is the
//! recovery decision in [`RateGate::acquire`] and the minimum-interval
//! arithmetic in [`required_wait_ms`]. Blocking, mutual exclusion and the
//! clock itself are trusted to `std::sync` and `std::time`.

use std::sync::{Arc, Mutex, MutexGuard};
use std::time::Instant;
use vstd::prelude::*;

verus! {

/// Shared handle to one timing gate. Handles obtained through
/// [`RateGate::share`] refer to the same gate; a gate starts unmarked, which
/// reads as "long enough ago that no wait is owed".
#[verifier::external_body]
pub struct RateGate {
    inner: Arc<Mutex<Option<Instant>>>,
}

/// Exclusive access to a gate's stored instant, held until dropped. The
/// holder of a guard is the only caller that may read or advance the shared gate.
#[verifier::external_body]
pub struct GateGuard<'a> {
    inner: MutexGuard<'a, Option<Instant>>,
}

impl RateGate {
    /// Relies on `std::sync::Mutex::new` and `std::sync::Arc::new`: a fresh,
    /// unmarked gate shared by nobody else yet.
    #[verifier::external_body]
    pub(crate) fn new() -> RateGate {
        RateGate { inner: Arc::new(Mutex::new(None)) }
    }

    /// Relies on `std::sync::Arc::clone`: the returned handle refers to the
    /// same gate as `self`. The abstract value of a `RateGate` is the
    /// identity of the underlying gate, so the clone equals the original.
    #[verifier::external_body]
    pub(crate) fn share(&self) -> (r: RateGate)
        ensures
            r == *self,
    {
        RateGate { inner: Arc::clone(&self.inner) }
    }

    /// Relies on `std::sync::Mutex::lock` and `PoisonError::into_inner`:
    /// blocks until exclusive access is granted, and reports whether the
    /// previous holder crashed while holding the shared gate. Lock acquisition
    /// never fails outright; a poisoned gate still yields its guard.
    #[verifier::external_body]
    fn lock_raw<'a>(&'a self) -> (GateGuard<'a>, bool) {
        match self.inner.lock() {
            Ok(guard) => (GateGuard { inner: guard }, false),
            Err(poisoned) => (GateGuard { inner: poisoned.into_inner() }, true),
        }
    }

    /// Blocks until this caller holds the shared gate exclusively. If the previous
    /// holder crashed mid-update, the stored instant is reset to "now":
    /// one extra unnecessary wait is traded for guaranteed forward progress,
    /// and the corruption is never surfaced as an error.
    pub fn acquire<'a>(&'a self) -> GateGuard<'a> {
        let (mut guard, poisoned) = self.lock_raw();
        if poisoned {
            guard.mark_now();
        }
        guard
    }
}

impl<'a> GateGuard<'a> {
    /// Relies on `std::time::Instant::now`, `Instant::duration_since` and
    /// `Duration::as_millis`: milliseconds of the monotonic clock since the
    /// stored instant, or `None` while the shared gate has never been marked. The
    /// result depends on the clock, so nothing more is promised of it.
    #[verifier::external_body]
    pub fn elapsed_ms(&self) -> Option<u128> {
        match *self.inner {
            None => None,
            Some(instant) => Some(Instant::now().duration_since(instant).as_millis()),
        }
    }

    /// Relies on `std::time::Instant::now`: stores the current instant as the
    /// moment of the latest remote request.
    #[verifier::external_body]
    pub fn mark_now(&mut self) {
        *self.inner = Some(Instant::now());
    }
}

/// The wait a rate-limited caller owes before its next remote call: enough to
/// stretch `elapsed` to `min_interval_ms`, and nothing when the shared gate was
/// never marked or the interval has already passed.
pub open spec fn spec_required_wait(elapsed: Option<u128>, min_interval_ms: u64) -> u64 {
    match elapsed {
        None => 0,
        Some(e) => if e >= min_interval_ms as u128 {
            0
        } else {
            (min_interval_ms as u128 - e) as u64
        },
    }
}

/// Computes the wait owed before the next remote call. Waiting the returned
/// number of milliseconds always covers the minimum interval.
pub fn required_wait_ms(elapsed: Option<u128>, min_interval_ms: u64) -> (r: u64)
    ensures
        r == spec_required_wait(elapsed, min_interval_ms),
        r <= min_interval_ms,
        elapsed is None ==> r == 0,
        elapsed matches Some(e) ==> ({
            &&& e + r as u128 >= min_interval_ms as u128
            &&& e >= min_interval_ms as u128 ==> r == 0
            &&& e < min_interval_ms as u128 ==> e + r as u128 == min_interval_ms as u128
        }),
{
    match elapsed {
        None => 0,
        Some(e) => {
            if e >= min_interval_ms as u128 {
                0
            } else {
                min_interval_ms - (e as u64)
            }
        },
    }
}

} // verus!
