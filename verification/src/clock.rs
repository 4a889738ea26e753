//! A monotonic clock that counts from the moment it was started.

use std::time::Instant;
use vstd::prelude::*;

verus! {

/// Nanoseconds in a second.
pub const NANOS_PER_SEC: u128 = 1_000_000_000;

/// `std::time::Instant`, an opaque moment that is only carried along.
#[verifier::external_type_specification]
#[verifier::external_body]
pub struct ExInstant(std::time::Instant);

/// The current moment, as `std::time::Instant::now` reads it. Nothing is known
/// of the moment it gives.
#[verifier::external_body]
fn current_instant() -> Instant {
    Instant::now()
}

/// The nanoseconds that `std::time::Instant::elapsed` measures since `origin`.
/// The measurement depends on when it is taken, so nothing is known of it.
#[verifier::external_body]
fn nanos_since(origin: &Instant) -> u128 {
    origin.elapsed().as_nanos()
}

/// Counts nanoseconds from a fixed moment.
#[derive(Debug, Clone, Copy)]
pub struct Clock {
    origin: Instant,
}

impl Clock {
    /// A clock that counts from now on. Nothing is stated of it: what it will show
    /// depends on when it is asked.
    pub fn start() -> Clock {
        Clock { origin: current_instant() }
    }

    /// Nanoseconds since this clock was started. Nothing is stated of the number,
    /// which depends on when the clock is asked.
    pub fn now(&self) -> u128 {
        nanos_since(&self.origin)
    }
}

/// Nanoseconds from `since` to `now`; zero when `now` is the earlier one.
pub open spec fn nanos_between(since: u128, now: u128) -> nat {
    if since <= now {
        (now - since) as nat
    } else {
        0
    }
}

/// Whole seconds from `since` to `now`.
pub open spec fn secs_between(since: u128, now: u128) -> nat {
    nanos_between(since, now) / (NANOS_PER_SEC as nat)
}

/// Nanoseconds from `since` to `now`; zero when `now` is the earlier one.
pub fn elapsed_nanos(since: u128, now: u128) -> (res: u128)
    ensures
        res == nanos_between(since, now),
{
    if since <= now {
        now - since
    } else {
        0
    }
}

/// Whole seconds from `since` to `now`.
pub fn elapsed_secs(since: u128, now: u128) -> (res: u128)
    ensures
        res == secs_between(since, now),
{
    elapsed_nanos(since, now) / NANOS_PER_SEC
}

} // verus!
