//! The linear curve: a straight interpolation from one value to another.

use vstd::prelude::*;
use crate::Tween;
use crate::numeric::TweenValue;
use crate::math::{
    in_i64, lerp, scale_trunc, lemma_lerp_in_range, lemma_lerp_monotone, lemma_lerp_reversible,
    lemma_scale_trunc_boundaries,
};
use vstd::arithmetic::div_mod::{lemma_div_nonincreasing, lemma_div_pos_is_pos};
use vstd::arithmetic::mul::{lemma_mul_inequality, lemma_mul_upper_bound};

verus! {

/// A straight-line tween from `initial_value` to `final_value` over
/// `duration`: at time `t` it takes the value `t / duration` of the way
/// between the endpoints, rounded toward the initial value.
#[derive(Clone, Copy, Debug, PartialEq, Eq, Structural)]
pub struct Linear {
    /// The value the curve starts from.
    pub initial_value: i64,
    /// The value the curve ends at.
    pub final_value: i64,
    /// The curve's duration, always positive.
    pub duration: i64,
}

impl Linear {
    /// Creates a new tween out of a range with a duration. A zero or
    /// negative duration is a programmer error and is rejected here.
    pub fn new(initial_value: i64, final_value: i64, duration: i64) -> (tw: Self)
        requires
            duration > 0,
        ensures
            tw == (Linear { initial_value, final_value, duration }),
    {
        Linear { initial_value, final_value, duration }
    }

    /// The delta/percent formulation of the linear curve: the
    /// interpolated increment to add to the initial value, given the
    /// value delta and the elapsed fraction `num / den`. It agrees with
    /// the full-state formulation at every time: `run(t)` returns the
    /// initial value plus `tween(final - initial, t, duration)`.
    pub fn tween(value_delta: i64, num: i64, den: i64) -> (r: i64)
        requires
            0 <= num,
            0 < den,
            in_i64(scale_trunc(value_delta as int, num as int, den as int)),
        ensures
            r as int == scale_trunc(value_delta as int, num as int, den as int),
    {
        TweenValue::scale(value_delta, num, den)
    }
}

impl Tween for Linear {
    open spec fn spec_initial_value(&self) -> int {
        self.initial_value as int
    }

    open spec fn spec_final_value(&self) -> int {
        self.final_value as int
    }

    open spec fn spec_duration(&self) -> int {
        self.duration as int
    }

    open spec fn spec_finite(&self) -> bool {
        true
    }

    open spec fn wf(&self) -> bool {
        self.duration > 0
    }

    open spec fn accepts(&self, t: int) -> bool {
        0 <= t && in_i64(self.value_at(t))
    }

    open spec fn value_at(&self, t: int) -> int {
        lerp(self.initial_value as int, self.final_value as int, t, self.duration as int)
    }

    proof fn wf_props(&self, t: int) {
        if 0 <= t <= self.duration {
            lemma_lerp_in_range(
                self.initial_value as int,
                self.final_value as int,
                t,
                self.duration as int,
            );
        }
    }

    proof fn boundary_exact(&self) {
        lemma_scale_trunc_boundaries(
            self.final_value - self.initial_value,
            self.duration as int,
        );
    }

    fn run(&mut self, new_time: i64) -> (value: i64) {
        let dur: u128 = self.duration as u128;
        let t: u128 = new_time as u128;
        if self.final_value >= self.initial_value {
            let delta: u128 = (self.final_value as i128 - self.initial_value as i128) as u128;
            proof {
                lemma_mul_upper_bound(delta as int, u64::MAX as int, t as int, i64::MAX as int);
                lemma_mul_nonneg_div_bounds(delta as int, t as int, dur as int);
            }
            let mag: u128 = delta * t / dur;
            (self.initial_value as i128 + mag as i128) as i64
        } else {
            let delta: u128 = (self.initial_value as i128 - self.final_value as i128) as u128;
            proof {
                lemma_mul_upper_bound(delta as int, u64::MAX as int, t as int, i64::MAX as int);
                lemma_mul_nonneg_div_bounds(delta as int, t as int, dur as int);
                assert(scale_trunc(
                    self.final_value - self.initial_value,
                    new_time as int,
                    self.duration as int,
                ) == -((delta as int * t as int) / dur as int));
            }
            let mag: u128 = delta * t / dur;
            (self.initial_value as i128 - mag as i128) as i64
        }
    }

    fn duration(&self) -> (d: i64) {
        self.duration
    }

    fn initial_value(&self) -> (v: i64) {
        self.initial_value
    }

    fn final_value(&self) -> (v: i64) {
        self.final_value
    }

    fn is_finite(&self) -> (b: bool) {
        true
    }
}

/// Monotonic progression: with its endpoints in order, a linear curve
/// never steps backward as time advances.
pub proof fn lemma_linear_monotone(tw: &Linear, t1: int, t2: int)
    requires
        tw.wf(),
        tw.initial_value <= tw.final_value,
        0 <= t1 <= t2,
    ensures
        tw.value_at(t1) <= tw.value_at(t2),
{
    lemma_lerp_monotone(
        tw.initial_value as int,
        tw.final_value as int,
        t1,
        t2,
        tw.duration as int,
    );
}

/// Reversibility: swapping the endpoints of a linear curve mirrors every
/// sample exactly about the midpoint of the endpoints, so the forward
/// and the reversed curve at the same time always sum to the sum of the
/// endpoints.
pub proof fn lemma_linear_reversible(tw: &Linear, rev: &Linear, t: int)
    requires
        tw.wf(),
        rev.wf(),
        rev.initial_value == tw.final_value,
        rev.final_value == tw.initial_value,
        rev.duration == tw.duration,
        0 <= t,
    ensures
        tw.value_at(t) + rev.value_at(t) == tw.initial_value + tw.final_value,
{
    lemma_lerp_reversible(
        tw.initial_value as int,
        tw.final_value as int,
        t,
        tw.duration as int,
    );
}

/// The scaled magnitude `x * y / d` is nonnegative and no larger than the
/// product itself.
proof fn lemma_mul_nonneg_div_bounds(x: int, y: int, d: int)
    requires
        0 <= x,
        0 <= y,
        0 < d,
    ensures
        0 <= (x * y) / d <= x * y,
        0 <= x * y,
{
    lemma_mul_inequality(0, x, y);
    lemma_div_pos_is_pos(x * y, d);
    lemma_div_nonincreasing(x * y, d);
}

} // verus!
