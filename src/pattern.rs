//! The pattern tree: primitives at the leaves, combinators that transform the
//! time and intensity of their children above them, and one recursive
//! evaluator for all of them.
//!
//! Sampling happens in two steps. Each randomized leaf on the path that the
//! sample takes first draws (this is `stepped`), then the tree is evaluated as
//! a pure function of its state and the time (this is `value`).

use vstd::prelude::*;
use crate::error::ConfigError;
use crate::fixed::{
    clamp_spec, div_floor, level_from_wide, level_of, max_spec, time_from_wide, time_of, wrap,
    wrap_time, MAX_TIME, UNIT,
};
use crate::random::{Random, RandomEvery, RandomWalk};
use crate::shape::{
    logistic, logistic_level, Constant, Linear, Pause, SawWave, SineWave, SquareWave,
    TriangleWave,
};

verus! {

/// A pattern node. Composite nodes own their children.
///
/// Scale factors and repeat counts are fixed-point numbers in which `UNIT`
/// stands for 1.0.
#[derive(Debug)]
#[allow(inconsistent_fields)]
pub enum Pattern {
    Pause(Pause),
    Constant(Constant),
    Linear(Linear),
    SawWave(SawWave),
    TriangleWave(TriangleWave),
    SquareWave(SquareWave),
    SineWave(SineWave),
    Random(Random),
    RandomEvery(RandomEvery),
    RandomWalk(RandomWalk),
    /// Samples the child at `scalar * t`.
    ScaleTime { pattern: Box<Pattern>, scalar: u32 },
    /// Multiplies the child's intensity by `scalar`.
    ScaleIntensity { pattern: Box<Pattern>, scalar: i32 },
    Sum { a: Box<Pattern>, b: Box<Pattern> },
    Subtract { a: Box<Pattern>, b: Box<Pattern> },
    Average { a: Box<Pattern>, b: Box<Pattern> },
    Clamp { pattern: Box<Pattern>, floor: i32, ceiling: i32 },
    /// Maps the child's intensity through the logistic function into `(0, UNIT)`.
    ValidScale { pattern: Box<Pattern> },
    /// Samples the child `time_shift_ms` later than asked.
    Shift { pattern: Box<Pattern>, time_shift_ms: u64 },
    /// Plays the child `count` times (a fixed-point count).
    Repeat { pattern: Box<Pattern>, count: u32 },
    Forever { pattern: Box<Pattern> },
    /// Plays `first`, then `then` from its own start.
    Chain { first: Box<Pattern>, then: Box<Pattern> },
    /// Like `Chain`, with the last `overlap_ms` of `first` blended linearly
    /// into the start of `then`.
    Crossfade { first: Box<Pattern>, then: Box<Pattern>, overlap_ms: u64 },
    /// Multiplies the intensity of `pattern` by that of `modulator`.
    AmplitudeModulator { pattern: Box<Pattern>, modulator: Box<Pattern> },
}

/// Where `then` starts in a crossfade whose `first` lasts `d`.
pub open spec fn crossfade_start(d: int, overlap: int) -> int {
    if overlap <= d { d - overlap } else { 0 }
}

/// `x` and `y` blended over the window `[s, d)`: all `x` at `s`, moving
/// linearly towards `y` at `d`; rounded down.
pub open spec fn blend(x: int, y: int, t: int, s: int, d: int) -> int {
    level_of((x * (d - t) + y * (t - s)) / (d - s))
}

impl Pattern {
    /// The length of one cycle, in milliseconds. It depends on the static
    /// configuration alone, never on the state of a randomized leaf.
    pub open spec fn spec_duration(&self) -> int
        decreases self,
    {
        match self {
            Pattern::Pause(p) => p.duration_ms as int,
            Pattern::Constant(c) => c.duration_ms as int,
            Pattern::Linear(l) => l.duration_ms as int,
            Pattern::SawWave(w) => w.wavelength_ms as int,
            Pattern::TriangleWave(w) => w.wavelength_ms as int,
            Pattern::SquareWave(w) => w.wavelength_ms as int,
            Pattern::SineWave(w) => w.wavelength_ms as int,
            Pattern::Random(g) => g.duration_ms as int,
            Pattern::RandomEvery(g) => g.duration_ms as int,
            Pattern::RandomWalk(g) => g.duration_ms as int,
            Pattern::ScaleTime { pattern, .. } => pattern.spec_duration(),
            Pattern::ScaleIntensity { pattern, .. } => pattern.spec_duration(),
            Pattern::Sum { a, b } => max_spec(a.spec_duration(), b.spec_duration()),
            Pattern::Subtract { a, b } => max_spec(a.spec_duration(), b.spec_duration()),
            Pattern::Average { a, b } => max_spec(a.spec_duration(), b.spec_duration()),
            Pattern::Clamp { pattern, .. } => pattern.spec_duration(),
            Pattern::ValidScale { pattern } => pattern.spec_duration(),
            Pattern::Shift { pattern, time_shift_ms } => time_of(
                pattern.spec_duration() - *time_shift_ms,
            ),
            Pattern::Repeat { pattern, count } => time_of(
                *count * pattern.spec_duration() / (UNIT as int),
            ),
            Pattern::Forever { .. } => MAX_TIME as int,
            Pattern::Chain { first, then } => time_of(first.spec_duration() + then.spec_duration()),
            Pattern::Crossfade { first, then, overlap_ms } => time_of(
                crossfade_start(first.spec_duration(), *overlap_ms as int) + then.spec_duration(),
            ),
            Pattern::AmplitudeModulator { pattern, .. } => pattern.spec_duration(),
        }
    }

    /// The intensity at time `t`, given the current state of every randomized
    /// leaf.
    pub open spec fn value(&self, t: int) -> int
        decreases self,
    {
        match self {
            Pattern::Pause(_) => 0,
            Pattern::Constant(c) => c.level as int,
            Pattern::Linear(l) => l.value(t),
            Pattern::SawWave(w) => w.value(t),
            Pattern::TriangleWave(w) => w.value(t),
            Pattern::SquareWave(w) => w.value(t),
            Pattern::SineWave(w) => w.value(t),
            Pattern::Random(g) => g.current as int,
            Pattern::RandomEvery(g) => g.last_value as int,
            Pattern::RandomWalk(g) => g.state as int,
            Pattern::ScaleTime { pattern, scalar } => pattern.value(
                time_of(t * *scalar / (UNIT as int)),
            ),
            Pattern::ScaleIntensity { pattern, scalar } => level_of(
                pattern.value(t) * *scalar / (UNIT as int),
            ),
            Pattern::Sum { a, b } => level_of(a.value(t) + b.value(t)),
            Pattern::Subtract { a, b } => level_of(a.value(t) - b.value(t)),
            Pattern::Average { a, b } => (a.value(t) + b.value(t)) / 2,
            Pattern::Clamp { pattern, floor, ceiling } => clamp_spec(
                pattern.value(t),
                *floor as int,
                *ceiling as int,
            ),
            Pattern::ValidScale { pattern } => logistic(pattern.value(t)),
            Pattern::Shift { pattern, time_shift_ms } => pattern.value(time_of(t + *time_shift_ms)),
            Pattern::Repeat { pattern, .. } => pattern.value(wrap(t, pattern.spec_duration())),
            Pattern::Forever { pattern } => pattern.value(wrap(t, pattern.spec_duration())),
            Pattern::Chain { first, then } => {
                let d = first.spec_duration();
                if t < d { first.value(t) } else { then.value(t - d) }
            },
            Pattern::Crossfade { first, then, overlap_ms } => {
                let d = first.spec_duration();
                let s = crossfade_start(d, *overlap_ms as int);
                if t < s {
                    first.value(t)
                } else if t < d {
                    blend(first.value(t), then.value(t - s), t, s, d)
                } else {
                    then.value(t - s)
                }
            },
            Pattern::AmplitudeModulator { pattern, modulator } => level_of(
                pattern.value(t) * modulator.value(t) / (UNIT as int),
            ),
        }
    }

    /// `next` is this tree after a sample at time `t` and clock reading
    /// `clock`: every randomized leaf that the sample reaches has drawn, and
    /// nothing else has changed.
    pub open spec fn stepped(&self, next: Pattern, t: int, clock: int) -> bool
        decreases self,
    {
        match self {
            Pattern::Random(g) => match next {
                Pattern::Random(n) => g.stepped(n),
                _ => false,
            },
            Pattern::RandomEvery(g) => match next {
                Pattern::RandomEvery(n) => g.stepped(n, clock),
                _ => false,
            },
            Pattern::RandomWalk(g) => match next {
                Pattern::RandomWalk(n) => g.stepped(n),
                _ => false,
            },
            Pattern::ScaleTime { pattern, scalar } => match next {
                Pattern::ScaleTime { pattern: np, scalar: ns } => ns == *scalar
                    && pattern.stepped(*np, time_of(t * *scalar / (UNIT as int)), clock),
                _ => false,
            },
            Pattern::ScaleIntensity { pattern, scalar } => match next {
                Pattern::ScaleIntensity { pattern: np, scalar: ns } => ns == *scalar
                    && pattern.stepped(*np, t, clock),
                _ => false,
            },
            Pattern::Sum { a, b } => match next {
                Pattern::Sum { a: na, b: nb } => a.stepped(*na, t, clock) && b.stepped(*nb, t, clock),
                _ => false,
            },
            Pattern::Subtract { a, b } => match next {
                Pattern::Subtract { a: na, b: nb } => a.stepped(*na, t, clock) && b.stepped(
                    *nb,
                    t,
                    clock,
                ),
                _ => false,
            },
            Pattern::Average { a, b } => match next {
                Pattern::Average { a: na, b: nb } => a.stepped(*na, t, clock) && b.stepped(
                    *nb,
                    t,
                    clock,
                ),
                _ => false,
            },
            Pattern::Clamp { pattern, floor, ceiling } => match next {
                Pattern::Clamp { pattern: np, floor: nf, ceiling: nc } => nf == *floor && nc
                    == *ceiling && pattern.stepped(*np, t, clock),
                _ => false,
            },
            Pattern::ValidScale { pattern } => match next {
                Pattern::ValidScale { pattern: np } => pattern.stepped(*np, t, clock),
                _ => false,
            },
            Pattern::Shift { pattern, time_shift_ms } => match next {
                Pattern::Shift { pattern: np, time_shift_ms: ns } => ns == *time_shift_ms
                    && pattern.stepped(*np, time_of(t + *time_shift_ms), clock),
                _ => false,
            },
            Pattern::Repeat { pattern, count } => match next {
                Pattern::Repeat { pattern: np, count: nc } => nc == *count && pattern.stepped(
                    *np,
                    wrap(t, pattern.spec_duration()),
                    clock,
                ),
                _ => false,
            },
            Pattern::Forever { pattern } => match next {
                Pattern::Forever { pattern: np } => pattern.stepped(
                    *np,
                    wrap(t, pattern.spec_duration()),
                    clock,
                ),
                _ => false,
            },
            Pattern::Chain { first, then } => match next {
                Pattern::Chain { first: nf, then: nt } => {
                    let d = first.spec_duration();
                    if t < d {
                        first.stepped(*nf, t, clock) && *nt == **then
                    } else {
                        *nf == **first && then.stepped(*nt, t - d, clock)
                    }
                },
                _ => false,
            },
            Pattern::Crossfade { first, then, overlap_ms } => match next {
                Pattern::Crossfade { first: nf, then: nt, overlap_ms: no } => {
                    let d = first.spec_duration();
                    let s = crossfade_start(d, *overlap_ms as int);
                    &&& no == *overlap_ms
                    &&& if t < s {
                        first.stepped(*nf, t, clock) && *nt == **then
                    } else if t < d {
                        first.stepped(*nf, t, clock) && then.stepped(*nt, t - s, clock)
                    } else {
                        *nf == **first && then.stepped(*nt, t - s, clock)
                    }
                },
                _ => false,
            },
            Pattern::AmplitudeModulator { pattern, modulator } => match next {
                Pattern::AmplitudeModulator { pattern: np, modulator: nm } => pattern.stepped(
                    *np,
                    t,
                    clock,
                ) && modulator.stepped(*nm, t, clock),
                _ => false,
            },
            _ => next == *self,
        }
    }

    /// `next` is this tree after a reset: a `RandomEvery` has drawn afresh at
    /// clock reading 0, a `RandomWalk` is back at 0, and nothing else has
    /// changed.
    pub open spec fn reset_to(&self, next: Pattern) -> bool
        decreases self,
    {
        match self {
            Pattern::RandomEvery(g) => match next {
                Pattern::RandomEvery(n) => g.reset_to(n),
                _ => false,
            },
            Pattern::RandomWalk(g) => next == Pattern::RandomWalk(RandomWalk { state: 0, ..*g }),
            Pattern::ScaleTime { pattern, scalar } => match next {
                Pattern::ScaleTime { pattern: np, scalar: ns } => ns == *scalar && pattern.reset_to(
                    *np,
                ),
                _ => false,
            },
            Pattern::ScaleIntensity { pattern, scalar } => match next {
                Pattern::ScaleIntensity { pattern: np, scalar: ns } => ns == *scalar
                    && pattern.reset_to(*np),
                _ => false,
            },
            Pattern::Sum { a, b } => match next {
                Pattern::Sum { a: na, b: nb } => a.reset_to(*na) && b.reset_to(*nb),
                _ => false,
            },
            Pattern::Subtract { a, b } => match next {
                Pattern::Subtract { a: na, b: nb } => a.reset_to(*na) && b.reset_to(*nb),
                _ => false,
            },
            Pattern::Average { a, b } => match next {
                Pattern::Average { a: na, b: nb } => a.reset_to(*na) && b.reset_to(*nb),
                _ => false,
            },
            Pattern::Clamp { pattern, floor, ceiling } => match next {
                Pattern::Clamp { pattern: np, floor: nf, ceiling: nc } => nf == *floor && nc
                    == *ceiling && pattern.reset_to(*np),
                _ => false,
            },
            Pattern::ValidScale { pattern } => match next {
                Pattern::ValidScale { pattern: np } => pattern.reset_to(*np),
                _ => false,
            },
            Pattern::Shift { pattern, time_shift_ms } => match next {
                Pattern::Shift { pattern: np, time_shift_ms: ns } => ns == *time_shift_ms
                    && pattern.reset_to(*np),
                _ => false,
            },
            Pattern::Repeat { pattern, count } => match next {
                Pattern::Repeat { pattern: np, count: nc } => nc == *count && pattern.reset_to(
                    *np,
                ),
                _ => false,
            },
            Pattern::Forever { pattern } => match next {
                Pattern::Forever { pattern: np } => pattern.reset_to(*np),
                _ => false,
            },
            Pattern::Chain { first, then } => match next {
                Pattern::Chain { first: nf, then: nt } => first.reset_to(*nf) && then.reset_to(
                    *nt,
                ),
                _ => false,
            },
            Pattern::Crossfade { first, then, overlap_ms } => match next {
                Pattern::Crossfade { first: nf, then: nt, overlap_ms: no } => no == *overlap_ms
                    && first.reset_to(*nf) && then.reset_to(*nt),
                _ => false,
            },
            Pattern::AmplitudeModulator { pattern, modulator } => match next {
                Pattern::AmplitudeModulator { pattern: np, modulator: nm } => pattern.reset_to(*np)
                    && modulator.reset_to(*nm),
                _ => false,
            },
            _ => next == *self,
        }
    }
}

impl Pattern {
    /// The length of one cycle, in milliseconds.
    pub fn duration(&self) -> (r: u64)
        ensures
            r == self.spec_duration(),
        decreases self,
    {
        match self {
            Pattern::Pause(p) => p.duration_ms,
            Pattern::Constant(c) => c.duration_ms,
            Pattern::Linear(l) => l.duration_ms,
            Pattern::SawWave(w) => w.wavelength_ms,
            Pattern::TriangleWave(w) => w.wavelength_ms,
            Pattern::SquareWave(w) => w.wavelength_ms,
            Pattern::SineWave(w) => w.wavelength_ms,
            Pattern::Random(g) => g.duration_ms,
            Pattern::RandomEvery(g) => g.duration_ms,
            Pattern::RandomWalk(g) => g.duration_ms,
            Pattern::ScaleTime { pattern, .. } => pattern.duration(),
            Pattern::ScaleIntensity { pattern, .. } => pattern.duration(),
            Pattern::Sum { a, b } | Pattern::Subtract { a, b } | Pattern::Average { a, b } => {
                let da = a.duration();
                let db = b.duration();
                if da >= db {
                    da
                } else {
                    db
                }
            },
            Pattern::Clamp { pattern, .. } => pattern.duration(),
            Pattern::ValidScale { pattern } => pattern.duration(),
            Pattern::Shift { pattern, time_shift_ms } => {
                let d = pattern.duration();
                if d > *time_shift_ms {
                    d - *time_shift_ms
                } else {
                    0
                }
            },
            Pattern::Repeat { pattern, count } => {
                let d = pattern.duration();
                assert(0 <= *count * d <= 0x1_0000_0000 * 0x1_0000_0000_0000_0000) by (nonlinear_arith)
                    requires 0 <= *count < 0x1_0000_0000, 0 <= d < 0x1_0000_0000_0000_0000;
                time_from_wide((*count as i128 * d as i128) / (UNIT as i128))
            },
            Pattern::Forever { .. } => MAX_TIME,
            Pattern::Chain { first, then } => {
                let d1 = first.duration();
                let d2 = then.duration();
                time_from_wide(d1 as i128 + d2 as i128)
            },
            Pattern::Crossfade { first, then, overlap_ms } => {
                let d1 = first.duration();
                let d2 = then.duration();
                let start: u64 = if *overlap_ms <= d1 {
                    d1 - *overlap_ms
                } else {
                    0
                };
                time_from_wide(start as i128 + d2 as i128)
            },
            Pattern::AmplitudeModulator { pattern, .. } => pattern.duration(),
        }
    }

    /// Lets every randomized leaf that a sample at time `time_ms` reaches
    /// draw, with `clock_ms` the clock reading that `RandomEvery` measures its
    /// interval on. Nothing else changes.
    pub fn step(&mut self, time_ms: u64, clock_ms: u64)
        ensures
            old(self).stepped(*final(self), time_ms as int, clock_ms as int),
            final(self).spec_duration() == old(self).spec_duration(),
        decreases *old(self),
    {
        match self {
            Pattern::Random(g) => {
                g.sample();
            },
            Pattern::RandomEvery(g) => {
                g.sample(clock_ms);
            },
            Pattern::RandomWalk(g) => {
                g.sample();
            },
            Pattern::ScaleTime { pattern, scalar } => {
                assert(0 <= time_ms * *scalar <= 0x1_0000_0000_0000_0000 * 0x1_0000_0000)
                    by (nonlinear_arith)
                    requires
                        0 <= *scalar < 0x1_0000_0000,
                        0 <= time_ms < 0x1_0000_0000_0000_0000,
                ;
                let local = time_from_wide((time_ms as i128 * *scalar as i128) / (UNIT as i128));
                pattern.step(local, clock_ms);
            },
            Pattern::ScaleIntensity { pattern, .. } => pattern.step(time_ms, clock_ms),
            Pattern::Sum { a, b } => {
                a.step(time_ms, clock_ms);
                b.step(time_ms, clock_ms);
            },
            Pattern::Subtract { a, b } => {
                a.step(time_ms, clock_ms);
                b.step(time_ms, clock_ms);
            },
            Pattern::Average { a, b } => {
                a.step(time_ms, clock_ms);
                b.step(time_ms, clock_ms);
            },
            Pattern::Clamp { pattern, .. } => pattern.step(time_ms, clock_ms),
            Pattern::ValidScale { pattern } => pattern.step(time_ms, clock_ms),
            Pattern::Shift { pattern, time_shift_ms } => {
                let local = time_from_wide(time_ms as i128 + *time_shift_ms as i128);
                pattern.step(local, clock_ms);
            },
            Pattern::Repeat { pattern, .. } => {
                let d = pattern.duration();
                pattern.step(wrap_time(time_ms, d), clock_ms);
            },
            Pattern::Forever { pattern } => {
                let d = pattern.duration();
                pattern.step(wrap_time(time_ms, d), clock_ms);
            },
            Pattern::Chain { first, then } => {
                let d = first.duration();
                if time_ms < d {
                    first.step(time_ms, clock_ms);
                } else {
                    then.step(time_ms - d, clock_ms);
                }
            },
            Pattern::Crossfade { first, then, overlap_ms } => {
                let d = first.duration();
                let start: u64 = if *overlap_ms <= d {
                    d - *overlap_ms
                } else {
                    0
                };
                if time_ms < start {
                    first.step(time_ms, clock_ms);
                } else if time_ms < d {
                    first.step(time_ms, clock_ms);
                    then.step(time_ms - start, clock_ms);
                } else {
                    then.step(time_ms - start, clock_ms);
                }
            },
            Pattern::AmplitudeModulator { pattern, modulator } => {
                pattern.step(time_ms, clock_ms);
                modulator.step(time_ms, clock_ms);
            },
            _ => {},
        }
    }

    /// The intensity at time `time_ms` in the current state, with no draw.
    pub fn value_at(&self, time_ms: u64) -> (r: i32)
        ensures
            r == self.value(time_ms as int),
        decreases self,
    {
        match self {
            Pattern::Pause(_) => 0,
            Pattern::Constant(c) => c.level,
            Pattern::Linear(l) => l.sample(time_ms),
            Pattern::SawWave(w) => w.sample(time_ms),
            Pattern::TriangleWave(w) => w.sample(time_ms),
            Pattern::SquareWave(w) => w.sample(time_ms),
            Pattern::SineWave(w) => w.sample(time_ms),
            Pattern::Random(g) => g.current,
            Pattern::RandomEvery(g) => g.last_value,
            Pattern::RandomWalk(g) => g.state,
            Pattern::ScaleTime { pattern, scalar } => {
                assert(0 <= time_ms * *scalar <= 0x1_0000_0000_0000_0000 * 0x1_0000_0000)
                    by (nonlinear_arith)
                    requires
                        0 <= *scalar < 0x1_0000_0000,
                        0 <= time_ms < 0x1_0000_0000_0000_0000,
                ;
                let local = time_from_wide((time_ms as i128 * *scalar as i128) / (UNIT as i128));
                pattern.value_at(local)
            },
            Pattern::ScaleIntensity { pattern, scalar } => {
                let v = pattern.value_at(time_ms);
                assert(-0x1_0000_0000 * 0x1_0000_0000 <= v * *scalar <= 0x1_0000_0000
                    * 0x1_0000_0000) by (nonlinear_arith)
                    requires
                        -0x1_0000_0000 <= *scalar <= 0x1_0000_0000,
                        -0x1_0000_0000 <= v <= 0x1_0000_0000,
                ;
                level_from_wide(div_floor(v as i128 * *scalar as i128, UNIT as i128))
            },
            Pattern::Sum { a, b } => {
                let x = a.value_at(time_ms);
                let y = b.value_at(time_ms);
                level_from_wide(x as i128 + y as i128)
            },
            Pattern::Subtract { a, b } => {
                let x = a.value_at(time_ms);
                let y = b.value_at(time_ms);
                level_from_wide(x as i128 - y as i128)
            },
            Pattern::Average { a, b } => {
                let x = a.value_at(time_ms);
                let y = b.value_at(time_ms);
                div_floor(x as i128 + y as i128, 2) as i32
            },
            Pattern::Clamp { pattern, floor, ceiling } => {
                let v = pattern.value_at(time_ms);
                let raised = if v < *floor {
                    *floor
                } else {
                    v
                };
                if raised > *ceiling {
                    *ceiling
                } else {
                    raised
                }
            },
            Pattern::ValidScale { pattern } => logistic_level(pattern.value_at(time_ms)),
            Pattern::Shift { pattern, time_shift_ms } => {
                let local = time_from_wide(time_ms as i128 + *time_shift_ms as i128);
                pattern.value_at(local)
            },
            Pattern::Repeat { pattern, .. } => {
                let d = pattern.duration();
                pattern.value_at(wrap_time(time_ms, d))
            },
            Pattern::Forever { pattern } => {
                let d = pattern.duration();
                pattern.value_at(wrap_time(time_ms, d))
            },
            Pattern::Chain { first, then } => {
                let d = first.duration();
                if time_ms < d {
                    first.value_at(time_ms)
                } else {
                    then.value_at(time_ms - d)
                }
            },
            Pattern::Crossfade { first, then, overlap_ms } => {
                let d = first.duration();
                let start: u64 = if *overlap_ms <= d {
                    d - *overlap_ms
                } else {
                    0
                };
                if time_ms < start {
                    first.value_at(time_ms)
                } else if time_ms < d {
                    let x = first.value_at(time_ms) as i128;
                    let y = then.value_at(time_ms - start) as i128;
                    let wx: i128 = (d - time_ms) as i128;
                    let wy: i128 = (time_ms - start) as i128;
                    assert(-0x1_0000_0000 * 0x1_0000_0000_0000_0000 <= x * wx <= 0x1_0000_0000
                        * 0x1_0000_0000_0000_0000) by (nonlinear_arith)
                        requires
                            -0x1_0000_0000 <= x <= 0x1_0000_0000,
                            0 <= wx < 0x1_0000_0000_0000_0000,
                    ;
                    assert(-0x1_0000_0000 * 0x1_0000_0000_0000_0000 <= y * wy <= 0x1_0000_0000
                        * 0x1_0000_0000_0000_0000) by (nonlinear_arith)
                        requires
                            -0x1_0000_0000 <= y <= 0x1_0000_0000,
                            0 <= wy < 0x1_0000_0000_0000_0000,
                    ;
                    level_from_wide(div_floor(x * wx + y * wy, (d - start) as i128))
                } else {
                    then.value_at(time_ms - start)
                }
            },
            Pattern::AmplitudeModulator { pattern, modulator } => {
                let x = pattern.value_at(time_ms);
                let y = modulator.value_at(time_ms);
                assert(-0x1_0000_0000 * 0x1_0000_0000 <= x * y <= 0x1_0000_0000 * 0x1_0000_0000)
                    by (nonlinear_arith)
                    requires
                        -0x1_0000_0000 <= x <= 0x1_0000_0000,
                        -0x1_0000_0000 <= y <= 0x1_0000_0000,
                ;
                level_from_wide(div_floor(x as i128 * y as i128, UNIT as i128))
            },
        }
    }

    /// Samples the tree at time `time_ms` (relative to the pattern's start)
    /// and clock reading `clock_ms`: randomized leaves on the sample's path
    /// draw (`step`), and the result is the value of the tree in its new state.
    pub fn sample(&mut self, time_ms: u64, clock_ms: u64) -> (r: i32)
        ensures
            old(self).stepped(*final(self), time_ms as int, clock_ms as int),
            final(self).spec_duration() == old(self).spec_duration(),
            r == final(self).value(time_ms as int),
    {
        self.step(time_ms, clock_ms);
        self.value_at(time_ms)
    }
}

impl Pattern {
    /// Puts every stateful leaf back to its initial state: a `RandomEvery`
    /// draws afresh, a `RandomWalk` returns to 0.
    pub fn reset(&mut self)
        ensures
            old(self).reset_to(*final(self)),
            final(self).spec_duration() == old(self).spec_duration(),
        decreases *old(self),
    {
        match self {
            Pattern::RandomEvery(g) => g.reset(),
            Pattern::RandomWalk(g) => g.reset(),
            Pattern::ScaleTime { pattern, .. } => pattern.reset(),
            Pattern::ScaleIntensity { pattern, .. } => pattern.reset(),
            Pattern::Sum { a, b } => {
                a.reset();
                b.reset();
            },
            Pattern::Subtract { a, b } => {
                a.reset();
                b.reset();
            },
            Pattern::Average { a, b } => {
                a.reset();
                b.reset();
            },
            Pattern::Clamp { pattern, .. } => pattern.reset(),
            Pattern::ValidScale { pattern } => pattern.reset(),
            Pattern::Shift { pattern, .. } => pattern.reset(),
            Pattern::Repeat { pattern, .. } => pattern.reset(),
            Pattern::Forever { pattern } => pattern.reset(),
            Pattern::Chain { first, then } => {
                first.reset();
                then.reset();
            },
            Pattern::Crossfade { first, then, .. } => {
                first.reset();
                then.reset();
            },
            Pattern::AmplitudeModulator { pattern, modulator } => {
                pattern.reset();
                modulator.reset();
            },
            _ => {},
        }
    }

    /// Scales time: the result samples this pattern at `scalar * t`
    /// (`scalar` in fixed point). The duration is unchanged.
    pub fn scale_time(self, scalar: u32) -> (r: Pattern)
        ensures
            r == (Pattern::ScaleTime { pattern: Box::new(self), scalar }),
    {
        Pattern::ScaleTime { pattern: Box::new(self), scalar }
    }

    /// Scales intensity by `scalar` (in fixed point).
    pub fn scale_intensity(self, scalar: i32) -> (r: Pattern)
        ensures
            r == (Pattern::ScaleIntensity { pattern: Box::new(self), scalar }),
    {
        Pattern::ScaleIntensity { pattern: Box::new(self), scalar }
    }

    /// The sum of this pattern and `other`.
    pub fn sum(self, other: Pattern) -> (r: Pattern)
        ensures
            r == (Pattern::Sum { a: Box::new(self), b: Box::new(other) }),
    {
        Pattern::Sum { a: Box::new(self), b: Box::new(other) }
    }

    /// This pattern minus `other`.
    pub fn subtract(self, other: Pattern) -> (r: Pattern)
        ensures
            r == (Pattern::Subtract { a: Box::new(self), b: Box::new(other) }),
    {
        Pattern::Subtract { a: Box::new(self), b: Box::new(other) }
    }

    /// The mean of this pattern and `other`.
    pub fn average(self, other: Pattern) -> (r: Pattern)
        ensures
            r == (Pattern::Average { a: Box::new(self), b: Box::new(other) }),
    {
        Pattern::Average { a: Box::new(self), b: Box::new(other) }
    }

    /// Clamps intensity into `[floor, ceiling]`.
    pub fn clamp(self, floor: i32, ceiling: i32) -> (r: Pattern)
        ensures
            r == (Pattern::Clamp { pattern: Box::new(self), floor, ceiling }),
    {
        Pattern::Clamp { pattern: Box::new(self), floor, ceiling }
    }

    /// Clamps intensity into the range a device accepts, `[0, UNIT]`.
    pub fn clamp_valid(self) -> (r: Pattern)
        ensures
            r == (Pattern::Clamp { pattern: Box::new(self), floor: 0, ceiling: UNIT }),
    {
        self.clamp(0, UNIT)
    }

    /// Maps intensity through the logistic function into `(0, UNIT)`.
    pub fn scale_valid(self) -> (r: Pattern)
        ensures
            r == (Pattern::ValidScale { pattern: Box::new(self) }),
    {
        Pattern::ValidScale { pattern: Box::new(self) }
    }

    /// Starts this pattern `time_shift_ms` into its cycle; the duration
    /// shrinks by as much, down to zero.
    pub fn shift(self, time_shift_ms: u64) -> (r: Pattern)
        ensures
            r == (Pattern::Shift { pattern: Box::new(self), time_shift_ms }),
    {
        Pattern::Shift { pattern: Box::new(self), time_shift_ms }
    }

    /// Plays this pattern `count` times (in fixed point, so fractional counts
    /// end part way through a cycle).
    pub fn repeat(self, count: u32) -> (r: Pattern)
        ensures
            r == (Pattern::Repeat { pattern: Box::new(self), count }),
    {
        Pattern::Repeat { pattern: Box::new(self), count }
    }

    /// Plays this pattern over and over, for the largest representable time.
    pub fn forever(self) -> (r: Pattern)
        ensures
            r == (Pattern::Forever { pattern: Box::new(self) }),
    {
        Pattern::Forever { pattern: Box::new(self) }
    }

    /// Plays this pattern, then `other`.
    pub fn chain(self, other: Pattern) -> (r: Pattern)
        ensures
            r == (Pattern::Chain { first: Box::new(self), then: Box::new(other) }),
    {
        Pattern::Chain { first: Box::new(self), then: Box::new(other) }
    }

    /// Plays this pattern, then `other`, blending the two over the last
    /// `overlap_ms` of this one. An overlap longer than this pattern would
    /// start `other` before time 0, and is refused.
    pub fn crossfade(self, other: Pattern, overlap_ms: u64) -> (r: Result<Pattern, ConfigError>)
        ensures
            overlap_ms <= self.spec_duration() ==> r == Ok::<
                Pattern,
                ConfigError,
            >(Pattern::Crossfade { first: Box::new(self), then: Box::new(other), overlap_ms }),
            overlap_ms > self.spec_duration() ==> r
                == Err::<Pattern, ConfigError>(ConfigError::OverlapTooLong),
    {
        if overlap_ms <= self.duration() {
            Ok(Pattern::Crossfade { first: Box::new(self), then: Box::new(other), overlap_ms })
        } else {
            Err(ConfigError::OverlapTooLong)
        }
    }

    /// Modulates the amplitude of this pattern by `modulator`: the product of
    /// the two intensities, with the duration of this pattern.
    pub fn modulate(self, modulator: Pattern) -> (r: Pattern)
        ensures
            r == (Pattern::AmplitudeModulator {
                pattern: Box::new(self),
                modulator: Box::new(modulator),
            }),
    {
        Pattern::AmplitudeModulator { pattern: Box::new(self), modulator: Box::new(modulator) }
    }
}

/// Every cycle length is a representable time.
pub proof fn lemma_duration_range(p: Pattern)
    ensures
        0 <= p.spec_duration() <= MAX_TIME,
    decreases p,
{
    match p {
        Pattern::ScaleTime { pattern, .. } => lemma_duration_range(*pattern),
        Pattern::ScaleIntensity { pattern, .. } => lemma_duration_range(*pattern),
        Pattern::Sum { a, b } => {
            lemma_duration_range(*a);
            lemma_duration_range(*b);
        },
        Pattern::Subtract { a, b } => {
            lemma_duration_range(*a);
            lemma_duration_range(*b);
        },
        Pattern::Average { a, b } => {
            lemma_duration_range(*a);
            lemma_duration_range(*b);
        },
        Pattern::Clamp { pattern, .. } => lemma_duration_range(*pattern),
        Pattern::ValidScale { pattern } => lemma_duration_range(*pattern),
        Pattern::AmplitudeModulator { pattern, .. } => lemma_duration_range(*pattern),
        _ => {},
    }
}

} // verus!
