//! Randomized generators: their only state is the value they last drew (and,
//! for `RandomEvery`, when they drew it).

use vstd::prelude::*;
use crate::fixed::clamp_spec;

verus! {

/// Relies on `rand::random_range`: a uniform draw from the half-open range
/// `lo..hi`, which must be non-empty (rand panics on an empty range).
#[verifier::external_body]
fn draw(lo: i32, hi: i32) -> (r: i32)
    requires
        lo < hi,
    ensures
        lo <= r < hi,
{
    rand::random_range(lo..hi)
}

/// `v` can come out of a draw from `[lo, hi)`; an empty range always gives `lo`.
pub open spec fn drawn_from(v: int, lo: int, hi: int) -> bool {
    if lo < hi { lo <= v < hi } else { v == lo }
}

/// A draw from `[lo, hi)`, or `lo` where that range is empty.
fn draw_level(lo: i32, hi: i32) -> (r: i32)
    ensures
        drawn_from(r as int, lo as int, hi as int),
{
    if lo < hi {
        draw(lo, hi)
    } else {
        lo
    }
}

/// A fresh uniform value from `[lo, hi)` at every sample.
#[derive(Clone, Copy, Debug, PartialEq, Eq, Structural)]
pub struct Random {
    pub lo: i32,
    pub hi: i32,
    pub duration_ms: u64,
    /// The value drawn by the last sample.
    pub current: i32,
}

/// Holds the value it last drew until more than `every_ms` has passed on the
/// clock since that draw, then draws again.
#[derive(Clone, Copy, Debug, PartialEq, Eq, Structural)]
pub struct RandomEvery {
    pub lo: i32,
    pub hi: i32,
    pub duration_ms: u64,
    pub every_ms: u64,
    /// The clock reading at the last draw.
    pub last_draw_ms: u64,
    /// The value of the last draw.
    pub last_value: i32,
}

/// A bounded random walk: each sample draws a candidate from `[lo, hi)`, moves
/// up by `increase` if the candidate lies above the current state and down by
/// `decrease` otherwise, then clamps into `[lo, hi]`.
#[derive(Clone, Copy, Debug, PartialEq, Eq, Structural)]
pub struct RandomWalk {
    pub lo: i32,
    pub hi: i32,
    pub increase: i32,
    pub decrease: i32,
    pub duration_ms: u64,
    /// The running state; 0 after a reset.
    pub state: i32,
}

/// The next state of a random walk from `state`, given the drawn `candidate`.
pub open spec fn walk(state: int, candidate: int, increase: int, decrease: int, lo: int, hi: int) -> int {
    let moved = if candidate > state { state + increase } else { state - decrease };
    clamp_spec(moved, lo, hi)
}

impl Random {
    pub fn new(lo: i32, hi: i32, duration_ms: u64) -> (r: Random)
        ensures
            r.lo == lo,
            r.hi == hi,
            r.duration_ms == duration_ms,
            r.current == lo,
    {
        Random { lo, hi, duration_ms, current: lo }
    }

    /// `next` is this generator after one sample.
    pub open spec fn stepped(&self, next: Random) -> bool {
        &&& next == (Random { current: next.current, ..*self })
        &&& drawn_from(next.current as int, self.lo as int, self.hi as int)
    }

    /// Draws a fresh value and returns it.
    pub fn sample(&mut self) -> (r: i32)
        ensures
            old(self).stepped(*final(self)),
            r == final(self).current,
    {
        self.current = draw_level(self.lo, self.hi);
        self.current
    }
}

impl RandomEvery {
    /// A generator whose first value is drawn now, at clock reading 0.
    pub fn new(lo: i32, hi: i32, duration_ms: u64, every_ms: u64) -> (r: RandomEvery)
        ensures
            r.lo == lo,
            r.hi == hi,
            r.duration_ms == duration_ms,
            r.every_ms == every_ms,
            r.last_draw_ms == 0,
            drawn_from(r.last_value as int, lo as int, hi as int),
    {
        let last_value = draw_level(lo, hi);
        RandomEvery { lo, hi, duration_ms, every_ms, last_draw_ms: 0, last_value }
    }

    /// More than `every_ms` has passed between the last draw and `clock`.
    pub open spec fn due(&self, clock: int) -> bool {
        clock - self.last_draw_ms > self.every_ms
    }

    pub fn is_due(&self, clock_ms: u64) -> (r: bool)
        ensures
            r == self.due(clock_ms as int),
    {
        clock_ms > self.last_draw_ms && clock_ms - self.last_draw_ms > self.every_ms
    }

    /// `next` is this generator after one sample at `clock`.
    pub open spec fn stepped(&self, next: RandomEvery, clock: int) -> bool {
        if self.due(clock) {
            &&& next == (RandomEvery { last_draw_ms: next.last_draw_ms, last_value: next.last_value, ..*self })
            &&& next.last_draw_ms == clock
            &&& drawn_from(next.last_value as int, self.lo as int, self.hi as int)
        } else {
            next == *self
        }
    }

    /// `next` is this generator after a reset: a fresh draw at clock reading 0.
    pub open spec fn reset_to(&self, next: RandomEvery) -> bool {
        &&& next == (RandomEvery { last_draw_ms: 0, last_value: next.last_value, ..*self })
        &&& drawn_from(next.last_value as int, self.lo as int, self.hi as int)
    }

    /// Draws again if the last draw is due for renewal at `clock_ms`; returns
    /// the value held.
    pub fn sample(&mut self, clock_ms: u64) -> (r: i32)
        ensures
            old(self).stepped(*final(self), clock_ms as int),
            r == final(self).last_value,
    {
        if self.is_due(clock_ms) {
            self.last_draw_ms = clock_ms;
            self.last_value = draw_level(self.lo, self.hi);
        }
        self.last_value
    }

    pub fn reset(&mut self)
        ensures
            old(self).reset_to(*final(self)),
    {
        self.last_draw_ms = 0;
        self.last_value = draw_level(self.lo, self.hi);
    }
}

impl RandomWalk {
    /// A walk whose state starts at 0.
    pub fn new(lo: i32, hi: i32, increase: i32, decrease: i32, duration_ms: u64) -> (r: RandomWalk)
        ensures
            r == (RandomWalk { lo, hi, increase, decrease, duration_ms, state: 0 }),
    {
        RandomWalk { lo, hi, increase, decrease, duration_ms, state: 0 }
    }

    /// The state that follows the current one when `candidate` is drawn.
    pub fn walk_step(&self, candidate: i32) -> (r: i32)
        ensures
            r == walk(self.state as int, candidate as int, self.increase as int,
                self.decrease as int, self.lo as int, self.hi as int),
    {
        let moved: i64 = if candidate > self.state {
            self.state as i64 + self.increase as i64
        } else {
            self.state as i64 - self.decrease as i64
        };
        let raised: i64 = if moved < self.lo as i64 { self.lo as i64 } else { moved };
        if raised > self.hi as i64 {
            self.hi
        } else {
            raised as i32
        }
    }

    /// `next` is this walk after one sample.
    pub open spec fn stepped(&self, next: RandomWalk) -> bool {
        &&& next == (RandomWalk { state: next.state, ..*self })
        &&& exists|c: int| #![trigger drawn_from(c, self.lo as int, self.hi as int)]
            drawn_from(c, self.lo as int, self.hi as int)
            && next.state == walk(self.state as int, c, self.increase as int,
                self.decrease as int, self.lo as int, self.hi as int)
    }

    /// Draws a candidate, moves the state by it, and returns the new state.
    pub fn sample(&mut self) -> (r: i32)
        ensures
            old(self).stepped(*final(self)),
            r == final(self).state,
    {
        let candidate = draw_level(self.lo, self.hi);
        self.state = self.walk_step(candidate);
        assert(drawn_from(candidate as int, self.lo as int, self.hi as int));
        self.state
    }

    /// Puts the state back to 0.
    pub fn reset(&mut self)
        ensures
            *final(self) == (RandomWalk { state: 0, ..*old(self) }),
    {
        self.state = 0;
    }
}

} // verus!
