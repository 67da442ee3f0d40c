//! Deterministic shape primitives: each is a pure function of elapsed time.
//!
//! Sampling a primitive past its own duration is left open: callers extend a
//! primitive with `repeat`, `forever` or `chain`.

use vstd::prelude::*;
use crate::fixed::{level_from_wide, div_floor, level_of, UNIT};

verus! {

/// Silence (intensity 0) for a fixed duration.
#[derive(Clone, Copy, Debug, PartialEq, Eq, Structural)]
pub struct Pause {
    pub duration_ms: u64,
}

/// A constant level for a fixed duration.
#[derive(Clone, Copy, Debug, PartialEq, Eq, Structural)]
pub struct Constant {
    pub level: i32,
    pub duration_ms: u64,
}

/// A straight ramp from `from` to `to` over a fixed duration.
#[derive(Clone, Copy, Debug, PartialEq, Eq, Structural)]
pub struct Linear {
    pub from: i32,
    pub to: i32,
    pub duration_ms: u64,
}

/// One rising ramp from 0 towards `amplitude` per wavelength.
#[derive(Clone, Copy, Debug, PartialEq, Eq, Structural)]
pub struct SawWave {
    pub amplitude: i32,
    pub wavelength_ms: u64,
}

/// A triangle between 0 and `amplitude`: rising for the first half of each
/// wavelength, falling for the second.
#[derive(Clone, Copy, Debug, PartialEq, Eq, Structural)]
pub struct TriangleWave {
    pub amplitude: i32,
    pub wavelength_ms: u64,
}

/// `amplitude` for the first half of each wavelength, 0 for the second.
#[derive(Clone, Copy, Debug, PartialEq, Eq, Structural)]
pub struct SquareWave {
    pub amplitude: i32,
    pub wavelength_ms: u64,
}

/// A raised cosine between 0 and `amplitude` that starts each wavelength at
/// its minimum and peaks half way through.
#[derive(Clone, Copy, Debug, PartialEq, Eq, Structural)]
pub struct SineWave {
    pub amplitude: i32,
    pub wavelength_ms: u64,
}

/// Bhaskara's rational approximation of `sin(pi * f / UNIT)` for a phase
/// `0 <= f <= UNIT`, in fixed point.
pub open spec fn half_sine(f: int) -> int {
    let q = f * (UNIT - f);
    16 * q * UNIT / (5 * UNIT * UNIT - 4 * q)
}

/// The raised cosine `(1 - cos(2 pi r / w)) / 2 == sin(pi r / w)^2`, scaled
/// by `amp`, with the sine from `half_sine`.
pub open spec fn raised_cosine(amp: int, r: int, w: int) -> int {
    let s = half_sine(r * UNIT / w);
    level_of(amp * s * s / (UNIT * UNIT))
}

/// A rational approximation of the logistic function `1 / (1 + e^-x)` in
/// fixed point, via `(1 + tanh(x / 2)) / 2` with the Pade form
/// `tanh(y) ~ y (27 + y^2) / (27 + 9 y^2)` (exact at 0, reaching 1 at
/// `y == 3`), and kept strictly between 0 and `UNIT`.
pub open spec fn logistic(x: int) -> int {
    let z = (if x >= 0 { x } else { -x }) / 2;
    let u = UNIT as int;
    let th = if z >= 3 * u { u } else { z * (27 * u * u + z * z) / (27 * u * u + 9 * (z * z)) };
    let half = if x >= 0 { (u + th) / 2 } else { (u - th) / 2 };
    if half < 1 { 1 } else if half > u - 1 { u - 1 } else { half }
}

/// Computes `logistic(x)`.
pub fn logistic_level(x: i32) -> (r: i32)
    ensures
        r == logistic(x as int),
        0 < r < UNIT,
{
    let a: i128 = if x >= 0 { x as i128 } else { -(x as i128) };
    let z: i128 = a / 2;
    let u: i128 = UNIT as i128;
    let th: i128 = if z >= 3 * u {
        u
    } else {
        assert(0 <= z * z <= 9 * u * u) by (nonlinear_arith)
            requires 0 <= z < 3 * u, u == 1_000_000;
        assert(0 <= z * (27 * u * u + z * z) <= 3 * u * (36 * u * u)) by (nonlinear_arith)
            requires 0 <= z < 3 * u, 0 <= z * z <= 9 * u * u;
        let zz: i128 = z * z;
        let num: i128 = z * (27 * u * u + zz);
        let den: i128 = 27 * u * u + 9 * zz;
        proof {
            assert(0 <= num <= u * den) by (nonlinear_arith)
                requires 0 <= z < 3 * u, zz == z * z, num == z * (27 * u * u + zz),
                    den == 27 * u * u + 9 * zz, u == 1_000_000;
            vstd::arithmetic::div_mod::lemma_div_is_ordered(num as int, u * den, den as int);
            vstd::arithmetic::div_mod::lemma_div_multiples_vanish(u as int, den as int);
            vstd::arithmetic::div_mod::lemma_div_pos_is_pos(num as int, den as int);
            assert(num == z * (27 * u * u + z * z));
            assert(den == 27 * u * u + 9 * (z * z));
        }
        num / den
    };
    let half: i128 = if x >= 0 { (u + th) / 2 } else { (u - th) / 2 };
    if half < 1 {
        1
    } else if half > u - 1 {
        (u - 1) as i32
    } else {
        half as i32
    }
}

impl Pause {
    pub fn new(duration_ms: u64) -> (r: Pause)
        ensures
            r.duration_ms == duration_ms,
    {
        Pause { duration_ms }
    }
}

impl Constant {
    pub fn new(level: i32, duration_ms: u64) -> (r: Constant)
        ensures
            r.level == level,
            r.duration_ms == duration_ms,
    {
        Constant { level, duration_ms }
    }
}

impl Linear {
    pub fn new(from: i32, to: i32, duration_ms: u64) -> (r: Linear)
        ensures
            r.from == from,
            r.to == to,
            r.duration_ms == duration_ms,
    {
        Linear { from, to, duration_ms }
    }

    /// `from + (to - from) * t / duration`, rounded down; `from` throughout a
    /// ramp of length zero.
    pub open spec fn value(&self, t: int) -> int {
        if self.duration_ms == 0 {
            self.from as int
        } else {
            level_of(self.from + (self.to - self.from) * t / (self.duration_ms as int))
        }
    }

    pub fn sample(&self, time_ms: u64) -> (r: i32)
        ensures
            r == self.value(time_ms as int),
    {
        if self.duration_ms == 0 {
            self.from
        } else {
            let span: i128 = self.to as i128 - self.from as i128;
            assert(-0x1_0000_0000 * 0x1_0000_0000_0000_0000 <= span * time_ms
                <= 0x1_0000_0000 * 0x1_0000_0000_0000_0000) by (nonlinear_arith)
                requires -0x1_0000_0000 <= span <= 0x1_0000_0000, 0 <= time_ms < 0x1_0000_0000_0000_0000;
            let step: i128 = div_floor(span * (time_ms as i128), self.duration_ms as i128);
            level_from_wide(self.from as i128 + step)
        }
    }
}

impl SawWave {
    pub fn new(amplitude: i32, wavelength_ms: u64) -> (r: SawWave)
        ensures
            r.amplitude == amplitude,
            r.wavelength_ms == wavelength_ms,
    {
        SawWave { amplitude, wavelength_ms }
    }

    /// `amplitude * (t mod w) / w`, rounded down; 0 for a wavelength of zero.
    pub open spec fn value(&self, t: int) -> int {
        let w = self.wavelength_ms as int;
        if w == 0 { 0 } else { level_of(self.amplitude * (t % w) / w) }
    }

    pub fn sample(&self, time_ms: u64) -> (r: i32)
        ensures
            r == self.value(time_ms as int),
    {
        let w = self.wavelength_ms;
        if w == 0 {
            0
        } else {
            let r: u64 = time_ms % w;
            let amp: i128 = self.amplitude as i128;
            assert(-0x1_0000_0000 * 0x1_0000_0000_0000_0000 <= amp * r
                <= 0x1_0000_0000 * 0x1_0000_0000_0000_0000) by (nonlinear_arith)
                requires -0x1_0000_0000 <= amp <= 0x1_0000_0000, 0 <= r < 0x1_0000_0000_0000_0000;
            level_from_wide(div_floor(amp * (r as i128), w as i128))
        }
    }
}

impl TriangleWave {
    pub fn new(amplitude: i32, wavelength_ms: u64) -> (r: TriangleWave)
        ensures
            r.amplitude == amplitude,
            r.wavelength_ms == wavelength_ms,
    {
        TriangleWave { amplitude, wavelength_ms }
    }

    /// `2 * amplitude * d / w`, rounded down and capped at `amplitude`, where
    /// `d` is the distance of `t mod w` from the nearer end of the cycle;
    /// 0 for a wavelength of zero.
    pub open spec fn value(&self, t: int) -> int {
        let w = self.wavelength_ms as int;
        if w == 0 {
            0
        } else {
            let r = t % w;
            let d = if 2 * r <= w { r } else { w - r };
            let v = level_of(2 * self.amplitude * d / w);
            if v > self.amplitude { self.amplitude as int } else { v }
        }
    }

    pub fn sample(&self, time_ms: u64) -> (r: i32)
        ensures
            r == self.value(time_ms as int),
    {
        let w = self.wavelength_ms;
        if w == 0 {
            0
        } else {
            let r: u64 = time_ms % w;
            let d: u64 = if r <= w - r { r } else { w - r };
            let amp2: i128 = 2 * (self.amplitude as i128);
            assert(-0x1_0000_0000 * 0x1_0000_0000_0000_0000 <= amp2 * d
                <= 0x1_0000_0000 * 0x1_0000_0000_0000_0000) by (nonlinear_arith)
                requires -0x1_0000_0000 <= amp2 <= 0x1_0000_0000, 0 <= d < 0x1_0000_0000_0000_0000;
            let v = level_from_wide(div_floor(amp2 * (d as i128), w as i128));
            if v > self.amplitude {
                self.amplitude
            } else {
                v
            }
        }
    }
}

impl SquareWave {
    pub fn new(amplitude: i32, wavelength_ms: u64) -> (r: SquareWave)
        ensures
            r.amplitude == amplitude,
            r.wavelength_ms == wavelength_ms,
    {
        SquareWave { amplitude, wavelength_ms }
    }

    /// `amplitude` while `t mod w` is in the first half of the cycle, else 0;
    /// 0 for a wavelength of zero.
    pub open spec fn value(&self, t: int) -> int {
        let w = self.wavelength_ms as int;
        if w == 0 {
            0
        } else if 2 * (t % w) < w {
            self.amplitude as int
        } else {
            0
        }
    }

    pub fn sample(&self, time_ms: u64) -> (r: i32)
        ensures
            r == self.value(time_ms as int),
    {
        let w = self.wavelength_ms;
        if w == 0 {
            0
        } else if (time_ms % w) < w - time_ms % w {
            self.amplitude
        } else {
            0
        }
    }
}

impl SineWave {
    pub fn new(amplitude: i32, wavelength_ms: u64) -> (r: SineWave)
        ensures
            r.amplitude == amplitude,
            r.wavelength_ms == wavelength_ms,
    {
        SineWave { amplitude, wavelength_ms }
    }

    /// `raised_cosine` at `t mod w`; 0 for a wavelength of zero.
    pub open spec fn value(&self, t: int) -> int {
        let w = self.wavelength_ms as int;
        if w == 0 { 0 } else { raised_cosine(self.amplitude as int, t % w, w) }
    }

    pub fn sample(&self, time_ms: u64) -> (r: i32)
        ensures
            r == self.value(time_ms as int),
    {
        let w = self.wavelength_ms;
        if w == 0 {
            0
        } else {
            let r: u64 = time_ms % w;
            let u: i128 = UNIT as i128;
            assert(0 <= r * u < w * u) by (nonlinear_arith)
                requires 0 <= r < w, u == 1_000_000;
            assert(w * u <= 0x1_0000_0000_0000_0000 * 1_000_000) by (nonlinear_arith)
                requires 0 <= w < 0x1_0000_0000_0000_0000, u == 1_000_000;
            let f: i128 = (r as i128 * u) / (w as i128);
            proof {
                let n = (r as int) * (u as int);
                vstd::arithmetic::div_mod::lemma_fundamental_div_mod(n, w as int);
                let m = n % (w as int);
                assert(0 <= f < u) by (nonlinear_arith)
                    requires n == w * f + m, 0 <= m < w, 0 <= n < w * u, 0 < w;
            }
            assert(0 <= f * (u - f) <= u * u / 4) by (nonlinear_arith)
                requires 0 <= f < u, u == 1_000_000;
            let q: i128 = f * (u - f);
            let den: i128 = 5 * u * u - 4 * q;
            let s: i128 = 16 * q * u / den;
            proof {
                let n = 16 * (q as int) * (u as int);
                assert(den > 0 && n >= 0) by (nonlinear_arith)
                    requires 0 <= q <= u * u / 4, den == 5 * u * u - 4 * q, u == 1_000_000, n == 16 * q * u;
                vstd::arithmetic::div_mod::lemma_fundamental_div_mod(n, den as int);
                let m = n % (den as int);
                assert(0 <= s <= u) by (nonlinear_arith)
                    requires 0 <= q <= u * u / 4, den == 5 * u * u - 4 * q, n == den * s + m,
                        0 <= m < den, n == 16 * q * u, u == 1_000_000;
            }
            let amp: i128 = self.amplitude as i128;
            assert(0 <= s * s <= u * u) by (nonlinear_arith)
                requires 0 <= s <= u, u == 1_000_000;
            let ss: i128 = s * s;
            assert(-0x1_0000_0000 * 1_000_000_000_000 <= amp * ss
                <= 0x1_0000_0000 * 1_000_000_000_000) by (nonlinear_arith)
                requires -0x1_0000_0000 <= amp <= 0x1_0000_0000, 0 <= ss <= u * u, u == 1_000_000;
            proof {
                assert(amp * s * s == amp * ss) by (nonlinear_arith) requires ss == s * s;
            }
            level_from_wide(div_floor(amp * ss, u * u))
        }
    }
}

} // verus!
