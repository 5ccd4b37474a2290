//! Deadline arithmetic for calls that take their time limit in milliseconds.
//!
//! All times are milliseconds on one clock that only moves forward; the
//! caller reads the clock and hands the reading in.

use vstd::prelude::*;

verus! {

/// The deadline has passed.
#[derive(Clone, Copy, Debug, PartialEq, Eq, Structural)]
pub struct Timeout;

/// A deadline that is fixed when the tracker is made.
#[derive(Clone, Copy, Debug)]
pub struct TimeoutTracker {
    deadline: u64,
}

/// The time left at `now` until `deadline`; zero from the deadline on.
pub open spec fn time_left(deadline: u64, now: u64) -> nat {
    if now < deadline {
        (deadline - now) as nat
    } else {
        0
    }
}

impl TimeoutTracker {
    /// The deadline, for contracts.
    pub closed spec fn deadline(&self) -> u64 {
        self.deadline
    }

    /// A tracker with the deadline `deadline`.
    pub fn new(deadline: u64) -> (tracker: Self)
        ensures
            tracker.deadline() == deadline,
    {
        TimeoutTracker { deadline }
    }

    /// A tracker whose deadline lies `timeout` after `now`, or at the end of
    /// the clock's range where that is earlier.
    pub fn starting_at(now: u64, timeout: u64) -> (tracker: Self)
        ensures
            tracker.deadline() == if now + timeout <= u64::MAX {
                (now + timeout) as u64
            } else {
                u64::MAX
            },
    {
        TimeoutTracker { deadline: now.saturating_add(timeout) }
    }

    /// The time left at `now`; fails once no time is left.
    pub fn remaining(&self, now: u64) -> (left: Result<u64, Timeout>)
        ensures
            left is Ok <==> now < self.deadline(),
            left matches Ok(ms) ==> ms == time_left(self.deadline(), now) && ms > 0,
    {
        if now < self.deadline {
            Ok(self.deadline - now)
        } else {
            Err(Timeout)
        }
    }

    /// The time left at `now`, cut down to the greatest value of 32 bits.
    pub fn remaining_ms(&self, now: u64) -> (left: u32)
        ensures
            left == if time_left(self.deadline(), now) <= u32::MAX {
                time_left(self.deadline(), now)
            } else {
                u32::MAX as nat
            },
    {
        if now < self.deadline {
            let left: u64 = self.deadline - now;
            if left > u32::MAX as u64 {
                u32::MAX
            } else {
                left as u32
            }
        } else {
            0
        }
    }
}

} // verus!
