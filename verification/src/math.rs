//! The integer arithmetic behind the engine: fraction scaling with
//! deterministic truncation toward zero, linear interpolation, time
//! wrapping for the looping and oscillating wrappers, and clamping.

use vstd::prelude::*;
use vstd::arithmetic::div_mod::{
    lemma_div_is_ordered, lemma_div_of0, lemma_div_pos_is_pos, lemma_div_by_multiple,
    lemma_mod_add_multiples_vanish, lemma_mod_pos_bound,
};
use vstd::arithmetic::mul::{lemma_mul_inequality, lemma_mul_is_commutative};

verus! {

/// Whether `x` is representable as an `i64`.
pub open spec fn in_i64(x: int) -> bool {
    i64::MIN <= x <= i64::MAX
}

/// The value delta `delta` scaled by the fraction `num / den`, rounded
/// toward zero. This is the engine's deterministic counterpart of
/// multiplying a value by a real-valued fraction of a duration.
pub open spec fn scale_trunc(delta: int, num: int, den: int) -> int
    recommends
        0 <= num,
        0 < den,
{
    if delta >= 0 {
        (delta * num) / den
    } else {
        -(((-delta) * num) / den)
    }
}

/// Linear interpolation: the value `num / den` of the way from `start`
/// to `end`, rounded toward `start`.
pub open spec fn lerp(start: int, end: int, num: int, den: int) -> int
    recommends
        0 <= num,
        0 < den,
{
    start + scale_trunc(end - start, num, den)
}

/// A time clamped into `[0, d]`.
pub open spec fn clamped(t: int, d: int) -> int {
    if t <= 0 {
        0
    } else if t >= d {
        d
    } else {
        t
    }
}

/// A time wrapped into `[0, d)`: the looping wrapper's cursor.
pub open spec fn wrapped(t: int, d: int) -> int
    recommends
        0 <= t,
        0 < d,
{
    t % d
}

/// A time folded into `[0, d]`, reversing direction on every other
/// cycle of length `d`: the oscillating wrapper's cursor.
pub open spec fn ping_pong(t: int, d: int) -> int
    recommends
        0 <= t,
        0 < d,
{
    let m = t % (2 * d);
    if m <= d {
        m
    } else {
        2 * d - m
    }
}

/// The sum of a sequence of time deltas.
pub open spec fn sum_of(deltas: Seq<int>) -> int
    decreases deltas.len(),
{
    if deltas.len() == 0 {
        0
    } else {
        sum_of(deltas.drop_last()) + deltas.last()
    }
}

/// The delta driver's accumulated time after feeding it the deltas in
/// order, starting from `start`: each call adds its delta to the
/// accumulator.
pub open spec fn accumulated(start: int, deltas: Seq<int>) -> int
    decreases deltas.len(),
{
    if deltas.len() == 0 {
        start
    } else {
        accumulated(start, deltas.drop_last()) + deltas.last()
    }
}

/// Accumulating deltas one call at a time lands on the start plus their
/// sum, whatever partial sums were passed through on the way.
pub proof fn lemma_accumulated_is_sum(start: int, deltas: Seq<int>)
    ensures
        accumulated(start, deltas) == start + sum_of(deltas),
    decreases deltas.len(),
{
    if deltas.len() > 0 {
        lemma_accumulated_is_sum(start, deltas.drop_last());
    }
}

/// Scaling by the fraction `0 / den` yields exactly zero, and scaling by
/// `den / den` yields exactly `delta`: the two boundary identities.
pub proof fn lemma_scale_trunc_boundaries(delta: int, den: int)
    requires
        0 < den,
    ensures
        scale_trunc(delta, 0, den) == 0,
        scale_trunc(delta, den, den) == delta,
{
    lemma_div_of0(den);
    if delta >= 0 {
        assert(delta * 0 == 0);
        lemma_div_by_multiple(delta, den);
    } else {
        assert((-delta) * 0 == 0);
        lemma_div_by_multiple(-delta, den);
    }
}

/// A delta scaled by a fraction of at most one lands between zero and the
/// delta itself, whichever sign the delta has.
pub proof fn lemma_scale_trunc_bounds(delta: int, num: int, den: int)
    requires
        0 <= num <= den,
        0 < den,
    ensures
        delta >= 0 ==> 0 <= scale_trunc(delta, num, den) <= delta,
        delta < 0 ==> delta <= scale_trunc(delta, num, den) <= 0,
{
    let mag = if delta >= 0 { delta } else { -delta };
    lemma_mul_inequality(num, den, mag);
    lemma_mul_is_commutative(mag, num);
    lemma_mul_is_commutative(mag, den);
    lemma_div_is_ordered(mag * num, mag * den, den);
    lemma_div_by_multiple(mag, den);
    lemma_mul_nonneg(mag, num);
    lemma_div_pos_is_pos(mag * num, den);
}

/// The product of two nonnegative factors is nonnegative.
pub proof fn lemma_mul_nonneg(x: int, y: int)
    requires
        0 <= x,
        0 <= y,
    ensures
        0 <= x * y,
{
    lemma_mul_inequality(0, x, y);
}

/// Scaling is monotone in the fraction for a nonnegative delta.
pub proof fn lemma_scale_trunc_monotone(delta: int, n1: int, n2: int, den: int)
    requires
        0 <= delta,
        0 <= n1 <= n2,
        0 < den,
    ensures
        scale_trunc(delta, n1, den) <= scale_trunc(delta, n2, den),
{
    lemma_mul_inequality(n1, n2, delta);
    lemma_mul_is_commutative(delta, n1);
    lemma_mul_is_commutative(delta, n2);
    lemma_div_is_ordered(delta * n1, delta * n2, den);
}

/// Negating the delta negates the scaled delta exactly: truncation toward
/// zero is symmetric about zero.
pub proof fn lemma_scale_trunc_negate(delta: int, num: int, den: int)
    requires
        0 <= num,
        0 < den,
    ensures
        scale_trunc(-delta, num, den) == -scale_trunc(delta, num, den),
{
    if delta == 0 {
        assert(0int * num == 0);
        lemma_div_of0(den);
    }
}

/// Swapping the endpoints mirrors the interpolant exactly: the value the
/// reversed run produces is the original's reflected about the midpoint of
/// the endpoints, at every fraction.
pub proof fn lemma_lerp_reversible(start: int, end: int, num: int, den: int)
    requires
        0 <= num,
        0 < den,
    ensures
        lerp(start, end, num, den) + lerp(end, start, num, den) == start + end,
{
    lemma_scale_trunc_negate(end - start, num, den);
}

/// For endpoints in order, the interpolant is monotone in the fraction.
pub proof fn lemma_lerp_monotone(start: int, end: int, n1: int, n2: int, den: int)
    requires
        start <= end,
        0 <= n1 <= n2,
        0 < den,
    ensures
        lerp(start, end, n1, den) <= lerp(start, end, n2, den),
{
    lemma_scale_trunc_monotone(end - start, n1, n2, den);
}

/// The interpolant stays between its endpoints for fractions up to one.
pub proof fn lemma_lerp_in_range(start: int, end: int, num: int, den: int)
    requires
        0 <= num <= den,
        0 < den,
    ensures
        start <= end ==> start <= lerp(start, end, num, den) <= end,
        end <= start ==> end <= lerp(start, end, num, den) <= start,
{
    lemma_scale_trunc_bounds(end - start, num, den);
}

/// A wrapped time lies within one cycle.
pub proof fn lemma_wrapped_bounds(t: int, d: int)
    requires
        0 <= t,
        0 < d,
    ensures
        0 <= wrapped(t, d) < d,
{
    lemma_mod_pos_bound(t, d);
}

/// Wrapping is periodic: one whole cycle later, the wrapped time repeats.
pub proof fn lemma_wrapped_periodic(t: int, d: int)
    requires
        0 <= t,
        0 < d,
    ensures
        wrapped(t + d, d) == wrapped(t, d),
{
    lemma_mod_add_multiples_vanish(t, d);
}

/// A ping-ponged time lies within one cycle, endpoints included.
pub proof fn lemma_ping_pong_bounds(t: int, d: int)
    requires
        0 <= t,
        0 < d,
    ensures
        0 <= ping_pong(t, d) <= d,
{
    lemma_mod_pos_bound(t, 2 * d);
}

/// Ping-ponging is periodic with a period of two cycles.
pub proof fn lemma_ping_pong_periodic(t: int, d: int)
    requires
        0 <= t,
        0 < d,
    ensures
        ping_pong(t + 2 * d, d) == ping_pong(t, d),
{
    lemma_mod_add_multiples_vanish(t, 2 * d);
}

} // verus!
