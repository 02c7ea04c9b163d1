//! Points in time, spans of time, and how long the loop may wait.
use vstd::prelude::*;

verus! {

/// A point in time, in nanoseconds from an origin that stays the same while the program runs.
#[derive(Clone, Copy, Debug, PartialEq, Eq, Structural)]
pub struct Instant {
    pub nanos: i128,
}

/// A span of time in nanoseconds.
#[derive(Clone, Copy, Debug, PartialEq, Eq, Structural)]
pub struct Duration {
    pub nanos: u128,
}

impl Instant {
    /// The time from `earlier` until this point; none if this point comes first.
    pub open spec fn since(self, earlier: Instant) -> Duration {
        Duration {
            nanos: if self.nanos > earlier.nanos {
                (self.nanos - earlier.nanos) as u128
            } else {
                0
            },
        }
    }

    pub fn saturating_duration_since(&self, earlier: Instant) -> (duration: Duration)
        ensures
            duration == self.since(earlier),
            self.nanos >= earlier.nanos ==> duration.nanos == self.nanos - earlier.nanos,
            self.nanos <= earlier.nanos ==> duration.nanos == 0,
    {
        if self.nanos <= earlier.nanos {
            Duration { nanos: 0 }
        } else if self.nanos >= 0 && earlier.nanos < 0 {
            let before: u128 = (-(earlier.nanos + 1)) as u128;
            Duration { nanos: self.nanos as u128 + before + 1 }
        } else {
            Duration { nanos: (self.nanos - earlier.nanos) as u128 }
        }
    }
}

/// How the loop goes on when it has nothing left to do.
#[derive(Clone, Copy, Debug, PartialEq, Eq, Structural)]
pub enum ControlFlow {
    Poll,
    Wait,
    WaitUntil(Instant),
}

impl Default for ControlFlow {
    fn default() -> (control_flow: Self)
        ensures
            control_flow == ControlFlow::Wait,
    {
        ControlFlow::Wait
    }
}

/// Why the loop runs.
#[derive(Clone, Copy, Debug, PartialEq, Eq, Structural)]
pub enum StartCause {
    ResumeTimeReached { start: Instant, requested_resume: Instant },
    WaitCancelled { start: Instant, requested_resume: Option<Instant> },
    Poll,
    Init,
}

/// The shorter of two timeouts, where none is an unlimited one.
pub open spec fn shorter(a: Option<Duration>, b: Option<Duration>) -> Option<Duration> {
    match (a, b) {
        (Some(a), Some(b)) => Some(
            if a.nanos <= b.nanos {
                a
            } else {
                b
            },
        ),
        (Some(a), None) => Some(a),
        (None, b) => b,
    }
}

/// The shorter of two timeouts. `None` is a timeout that never comes, not one that has come.
pub fn min_timeout(a: Option<Duration>, b: Option<Duration>) -> (timeout: Option<Duration>)
    ensures
        timeout == shorter(a, b),
{
    match a {
        Some(a_timeout) => match b {
            Some(b_timeout) => if b_timeout.nanos < a_timeout.nanos {
                Some(b_timeout)
            } else {
                Some(a_timeout)
            },
            None => Some(a_timeout),
        },
        None => b,
    }
}

/// Whether something that takes `duration` is over by the time that `timeout` comes.
pub open spec fn within(duration: nat, timeout: Option<Duration>) -> bool {
    match timeout {
        Some(timeout) => duration <= timeout.nanos,
        None => true,
    }
}

/// The shorter of two timeouts allows exactly the waits that both allow.
pub proof fn law_shorter_timeout(a: Option<Duration>, b: Option<Duration>, duration: nat)
    ensures
        within(duration, shorter(a, b)) <==> within(duration, a) && within(duration, b),
        shorter(a, b) == shorter(b, a),
        shorter(a, None) == a,
        shorter(a, b) == a || shorter(a, b) == b,
{
}

} // verus!
