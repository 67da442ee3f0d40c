//! Laws of the combinator algebra, stated over the evaluator `Pattern::value`
//! and the cycle length `Pattern::spec_duration`, which is what
//! `Pattern::sample` and `Pattern::duration` return.

use vstd::prelude::*;
use crate::fixed::{level_of, time_of, MAX_TIME, UNIT};
use crate::pattern::{lemma_duration_range, Pattern};
use crate::random::RandomWalk;

verus! {

/// A chain lasts as long as its two parts together (up to the largest
/// representable time), plays `a` before `a`'s duration, and `b` from its own
/// start after it.
pub proof fn chain_law(a: Pattern, b: Pattern, t: int)
    ensures
        ({
            let c = Pattern::Chain { first: Box::new(a), then: Box::new(b) };
            &&& c.spec_duration() == time_of(a.spec_duration() + b.spec_duration())
            &&& a.spec_duration() + b.spec_duration() <= MAX_TIME ==> c.spec_duration()
                == a.spec_duration() + b.spec_duration()
            &&& t < a.spec_duration() ==> c.value(t) == a.value(t)
            &&& t >= a.spec_duration() ==> c.value(t) == b.value(t - a.spec_duration())
        }),
{
    lemma_duration_range(a);
    lemma_duration_range(b);
}

/// A repeat lasts `count` cycles of its child (with `count` in fixed point,
/// rounded down to a whole millisecond), and is periodic: `k` whole cycles
/// later it plays what its child plays at `x`.
pub proof fn repeat_law(p: Pattern, count: u32, k: int, x: int)
    requires
        0 <= k,
        0 <= x < p.spec_duration(),
    ensures
        ({
            let r = Pattern::Repeat { pattern: Box::new(p), count };
            &&& r.spec_duration() == time_of(count * p.spec_duration() / (UNIT as int))
            &&& r.value(k * p.spec_duration() + x) == p.value(x)
        }),
{
    let d = p.spec_duration();
    vstd::arithmetic::div_mod::lemma_fundamental_div_mod_converse(k * d + x, d, k, x);
}

/// A whole repeat count `n` (that is, `count == n * UNIT`) gives exactly `n`
/// cycles wherever that fits in a time.
pub proof fn repeat_whole_law(p: Pattern, n: int)
    requires
        0 <= n,
        n * UNIT <= u32::MAX,
        n * p.spec_duration() <= MAX_TIME,
    ensures
        (Pattern::Repeat { pattern: Box::new(p), count: (n * UNIT) as u32 }).spec_duration() == n
            * p.spec_duration(),
{
    let d = p.spec_duration();
    lemma_duration_range(p);
    assert(0 <= n * d) by (nonlinear_arith) requires 0 <= n, 0 <= d;
    assert((n * UNIT) * d == (n * d) * UNIT) by (nonlinear_arith);
    vstd::arithmetic::div_mod::lemma_div_multiples_vanish(n * d, UNIT as int);
}

/// `forever` lasts the largest representable time and repeats its child's
/// cycle without end.
pub proof fn forever_law(p: Pattern, t: int)
    requires
        0 <= t,
        p.spec_duration() > 0,
    ensures
        ({
            let f = Pattern::Forever { pattern: Box::new(p) };
            &&& f.spec_duration() == MAX_TIME
            &&& f.value(t) == f.value(t % p.spec_duration())
        }),
{
    let d = p.spec_duration();
    vstd::arithmetic::div_mod::lemma_mod_pos_bound(t, d);
    vstd::arithmetic::div_mod::lemma_small_mod((t % d) as nat, d as nat);
}

/// A crossfade with no overlap is a chain.
pub proof fn crossfade_zero_law(a: Pattern, b: Pattern, t: int)
    ensures
        ({
            let x = Pattern::Crossfade { first: Box::new(a), then: Box::new(b), overlap_ms: 0 };
            let c = Pattern::Chain { first: Box::new(a), then: Box::new(b) };
            &&& x.spec_duration() == c.spec_duration()
            &&& x.value(t) == c.value(t)
        }),
{
    lemma_duration_range(a);
    lemma_duration_range(b);
}

/// Average, sum and difference act pointwise on their children, over the
/// longer of the two durations; sum and difference saturate at the limits
/// of an intensity, and are exact within them.
pub proof fn pointwise_law(a: Pattern, b: Pattern, t: int)
    ensures
        ({
            let avg = Pattern::Average { a: Box::new(a), b: Box::new(b) };
            let sum = Pattern::Sum { a: Box::new(a), b: Box::new(b) };
            let sub = Pattern::Subtract { a: Box::new(a), b: Box::new(b) };
            let longer = if a.spec_duration() >= b.spec_duration() {
                a.spec_duration()
            } else {
                b.spec_duration()
            };
            &&& avg.value(t) == (a.value(t) + b.value(t)) / 2
            &&& sum.value(t) == level_of(a.value(t) + b.value(t))
            &&& sub.value(t) == level_of(a.value(t) - b.value(t))
            &&& i32::MIN <= a.value(t) + b.value(t) <= i32::MAX ==> sum.value(t) == a.value(t)
                + b.value(t)
            &&& i32::MIN <= a.value(t) - b.value(t) <= i32::MAX ==> sub.value(t) == a.value(t)
                - b.value(t)
            &&& avg.spec_duration() == longer
            &&& sum.spec_duration() == longer
            &&& sub.spec_duration() == longer
        }),
{
}

/// Whatever the child plays, `clamp_valid` stays within `[0, UNIT]` and
/// `scale_valid` strictly inside `(0, UNIT)`.
pub proof fn valid_range_law(p: Pattern, t: int)
    ensures
        0 <= (Pattern::Clamp { pattern: Box::new(p), floor: 0, ceiling: UNIT }).value(t) <= UNIT,
        0 < (Pattern::ValidScale { pattern: Box::new(p) }).value(t) < UNIT,
{
}

/// Resetting a random walk twice in a row leaves its state at 0 after each
/// reset, and the second reset changes nothing.
pub proof fn walk_reset_law(w: RandomWalk, once: Pattern, twice: Pattern)
    requires
        Pattern::RandomWalk(w).reset_to(once),
        once.reset_to(twice),
    ensures
        once is RandomWalk && once->RandomWalk_0.state == 0,
        twice is RandomWalk && twice->RandomWalk_0.state == 0,
        twice == once,
{
}

} // verus!
