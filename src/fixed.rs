//! Fixed-point conventions and the saturating arithmetic shared by patterns.

use vstd::prelude::*;

verus! {

/// The fixed-point representation of 1.0, for intensities and scale factors.
pub const UNIT: i32 = 1_000_000;

/// The largest representable time, in milliseconds.
pub const MAX_TIME: u64 = 0xffff_ffff_ffff_ffff;

/// `x` saturated into the range of an intensity (`i32`).
pub open spec fn level_of(x: int) -> int {
    if x < -2147483648 {
        -2147483648
    } else if x > 2147483647 {
        2147483647
    } else {
        x
    }
}

/// `x` saturated into the range of a time (`u64`).
pub open spec fn time_of(x: int) -> int {
    if x < 0 {
        0
    } else if x > MAX_TIME {
        MAX_TIME as int
    } else {
        x
    }
}

/// `x` raised to at least `floor`, then lowered to at most `ceiling`.
pub open spec fn clamp_spec(x: int, floor: int, ceiling: int) -> int {
    let raised = if x < floor { floor } else { x };
    if raised > ceiling { ceiling } else { raised }
}

/// `t` folded into one cycle of length `d`; a cycle of length zero folds to 0.
pub open spec fn wrap(t: int, d: int) -> int {
    if d <= 0 { 0 } else { t % d }
}

/// The larger of `a` and `b`.
pub open spec fn max_spec(a: int, b: int) -> int {
    if a >= b { a } else { b }
}

/// Saturates a wide intermediate into an intensity.
pub fn level_from_wide(x: i128) -> (r: i32)
    ensures
        r == level_of(x as int),
{
    if x < -2147483648 {
        -2147483648
    } else if x > 2147483647 {
        2147483647
    } else {
        x as i32
    }
}

/// Saturates a wide intermediate into a time.
pub fn time_from_wide(x: i128) -> (r: u64)
    ensures
        r == time_of(x as int),
{
    if x < 0 {
        0
    } else if x > 0xffff_ffff_ffff_ffff {
        MAX_TIME
    } else {
        x as u64
    }
}

/// Floor division by a positive divisor.
pub fn div_floor(n: i128, d: i128) -> (q: i128)
    requires
        d > 0,
    ensures
        q == n / d,
        0 <= n ==> 0 <= q <= n,
        n < 0 ==> n <= q < 0,
{
    if n >= 0 {
        proof {
            vstd::arithmetic::div_mod::lemma_div_pos_is_pos(n as int, d as int);
            vstd::arithmetic::div_mod::lemma_div_is_ordered_by_denominator(n as int, 1, d as int);
        }
        n / d
    } else {
        let m: i128 = -(n + 1);
        let q0: i128 = m / d;
        proof {
            vstd::arithmetic::div_mod::lemma_div_pos_is_pos(m as int, d as int);
        }
        proof {
            let r0 = m % d;
            assert(m == d * q0 + r0 && 0 <= r0 < d) by {
                vstd::arithmetic::div_mod::lemma_fundamental_div_mod(m as int, d as int);
            }
            assert(n == d * (-q0 - 1) + (d - r0 - 1)) by (nonlinear_arith)
                requires
                    m == d * q0 + r0,
                    m == -(n + 1),
            ;
            vstd::arithmetic::div_mod::lemma_fundamental_div_mod_converse(
                n as int,
                d as int,
                -q0 - 1,
                d - r0 - 1,
            );
            assert(n <= -q0 - 1) by (nonlinear_arith)
                requires n == d * (-q0 - 1) + (d - r0 - 1), d > 0, 0 <= r0 < d, q0 >= 0;
        }
        -q0 - 1
    }
}

/// `t mod d`, or 0 for a cycle of length zero.
pub fn wrap_time(t: u64, d: u64) -> (r: u64)
    ensures
        r == wrap(t as int, d as int),
{
    if d == 0 {
        0
    } else {
        t % d
    }
}

} // verus!
