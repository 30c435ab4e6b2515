//! The scheduler's time source: a monotonic microsecond counter.
//!
//! On hardware the counter follows a timer peripheral; here it is a plain
//! value advanced explicitly, so the scheduler's timing decisions are
//! checked and a host-side harness (or a test's mock clock) drives it.

use vstd::prelude::*;

verus! {

/// A monotonic clock counting microseconds since startup.
pub struct Clock {
    now_us: u64,
}

impl Clock {
    /// The current time in microseconds.
    pub closed spec fn now_spec(&self) -> u64 {
        self.now_us
    }

    /// A clock reading zero.
    pub fn new() -> (c: Clock)
        ensures
            c.now_spec() == 0,
    {
        Clock { now_us: 0 }
    }

    /// Read the current time.
    pub fn now(&self) -> (t: u64)
        ensures
            t == self.now_spec(),
    {
        self.now_us
    }

    /// Move the clock forward by `d` microseconds.
    pub fn advance(&mut self, d: u64)
        requires
            old(self).now_spec() + d <= u64::MAX,
        ensures
            final(self).now_spec() == old(self).now_spec() + d,
    {
        self.now_us = self.now_us + d;
    }
}

} // verus!
