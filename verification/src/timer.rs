//! A polled timer that says when a tick of the simulation is due.

use std::time::{Duration, Instant};
use vstd::prelude::*;

verus! {

/// `std::time::Instant`, a reading of the monotonic clock. Nothing is
/// known of such a value but that it can be kept and handed back.
#[verifier::external_type_specification]
#[verifier::external_body]
pub struct ExInstant(std::time::Instant);

/// `Instant::now` reads the clock. Nothing is claimed of the reading.
pub assume_specification[ Instant::now ]() -> (now: Instant)
;

/// `Instant::elapsed` gives the time gone by since the reading was taken.
/// Nothing is claimed of it.
pub assume_specification[ Instant::elapsed ](start: &Instant) -> (gone: Duration)
;

/// `Duration::as_nanos` gives a duration as a whole number of nanoseconds.
/// Nothing is claimed of the number.
pub assume_specification[ Duration::as_nanos ](span: &Duration) -> (nanos: u128)
;

/// A gate with a fixed interval.
///
/// The timer is polled: it runs no thread and calls nobody back. Once the
/// interval has gone by it is complete; a loopable timer then starts over
/// at the next poll.
pub struct Timer {
    /// Length of the interval in nanoseconds.
    pub duration: u128,
    /// When the running interval began.
    pub start: Instant,
    /// Whether the running interval has been seen to be over.
    pub complete: bool,
    /// Whether the timer starts over once it is complete.
    pub loopable: bool,
}

/// What a poll may make of a timer: `after` and `due` are a state and an
/// answer that a poll may give in the state `before`.
///
/// A complete timer that is loopable begins a new interval and answers
/// no: after a restart the first yes comes when the new interval is over.
/// A complete timer that is not loopable stays as it is and answers yes.
/// A running timer keeps its start and answers whether it is complete
/// now; with an interval of zero it always is.
pub open spec fn polled(before: Timer, after: Timer, due: bool) -> bool {
    &&& after.duration == before.duration
    &&& after.loopable == before.loopable
    &&& if before.complete {
        if before.loopable {
            !due && !after.complete
        } else {
            due && after == before
        }
    } else {
        &&& after.start == before.start
        &&& after.complete == due
        &&& before.duration == 0 ==> due
    }
}

impl Timer {
    /// A timer with an interval of `duration` nanoseconds that begins now.
    /// A timer with an interval of zero is complete from the start.
    pub fn new(duration: u128, loopable: bool) -> (t: Timer)
        ensures
            t.duration == duration,
            t.loopable == loopable,
            t.complete <==> duration == 0,
    {
        Timer { duration, start: Instant::now(), complete: duration == 0, loopable }
    }

    /// Begins a new interval at `now`.
    pub fn restart(&mut self, now: Instant)
        ensures
            *final(self) == (Timer { start: now, complete: false, ..*old(self) }),
    {
        self.start = now;
        self.complete = false;
    }

    /// Holds `elapsed`, the nanoseconds gone by since the interval began,
    /// against the interval: the timer is complete, and a tick due, exactly
    /// if the interval is over.
    pub fn observe(&mut self, elapsed: u128) -> (due: bool)
        ensures
            due <==> elapsed >= old(self).duration,
            *final(self) == (Timer { complete: due, ..*old(self) }),
    {
        self.complete = elapsed >= self.duration;
        self.complete
    }

    /// Whether a tick is due.
    ///
    /// A complete timer starts over or stays as it is; a running timer
    /// reads the clock and answers what `observe` answers to the time gone
    /// by. What the clock reads is not known beforehand: the contract says
    /// what holds of every reading.
    pub fn poll(&mut self) -> (due: bool)
        ensures
            polled(*old(self), *final(self), due),
    {
        if self.complete {
            if self.loopable {
                self.restart(Instant::now());
                return false;
            } else {
                return true;
            }
        }
        let gone = self.start.elapsed();
        self.observe(gone.as_nanos())
    }
}

} // verus!
