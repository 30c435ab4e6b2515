//! The stack monitor: the scheduler's window onto stack usage.
//!
//! On hardware the numbers come from an architecture-specific probe (a
//! pattern scan of unused stack memory); here the monitor holds the
//! probe's latest reading as plain values, so the scheduler's use of it is
//! checked and a host-side harness can stand in for the probe.

use vstd::prelude::*;

verus! {

/// The latest stack probe reading: bytes used (high-water), bytes in use
/// right now, and the total reserved stack budget.
pub struct StackMonitor {
    used: usize,
    current: usize,
    reserved: usize,
}

impl StackMonitor {
    /// The high-water mark of the latest reading.
    pub closed spec fn used_spec(&self) -> usize {
        self.used
    }

    /// The bytes in use at the latest reading.
    pub closed spec fn current_spec(&self) -> usize {
        self.current
    }

    /// The reserved stack budget.
    pub closed spec fn reserved_spec(&self) -> usize {
        self.reserved
    }

    /// A monitor whose probe has not reported anything yet.
    pub fn new() -> (m: StackMonitor)
        ensures
            m.used_spec() == 0,
            m.current_spec() == 0,
            m.reserved_spec() == 0,
    {
        StackMonitor { used: 0, current: 0, reserved: 0 }
    }

    /// Report the probe's reading as `(usage, current, reserved)`.
    ///
    /// The flag asks the hardware probe for a verbose scan; it does not
    /// change what is returned.
    pub fn usage(&self, _verbose: bool) -> (r: (usize, usize, usize))
        ensures
            r.0 == self.used_spec(),
            r.1 == self.current_spec(),
            r.2 == self.reserved_spec(),
    {
        (self.used, self.current, self.reserved)
    }

    /// Store a fresh probe reading.
    pub fn set_reading(&mut self, used: usize, current: usize, reserved: usize)
        ensures
            final(self).used_spec() == used,
            final(self).current_spec() == current,
            final(self).reserved_spec() == reserved,
    {
        self.used = used;
        self.current = current;
        self.reserved = reserved;
    }
}

} // verus!
