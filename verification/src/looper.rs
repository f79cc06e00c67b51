//! The looping wrapper: repeats a finite curve forever, restarting at
//! the initial value each cycle.

use vstd::prelude::*;
use crate::Tween;
use crate::numeric::TweenTime;
use crate::math::{wrapped, lemma_wrapped_bounds, lemma_wrapped_periodic};
use vstd::arithmetic::div_mod::lemma_small_mod;

verus! {

/// Wraps a finite curve and, upon reaching completion, wraps the elapsed
/// time back into the curve's duration and continues: each cycle restarts
/// at the initial value. A looper never finishes, so it is infinite.
#[derive(Clone, Copy, Debug)]
pub struct Looper<T: Tween> {
    /// The wrapped curve.
    pub tween: T,
}

impl<T: Tween> Looper<T> {
    /// Wraps a finite curve. Wrapping an infinite curve would have
    /// ambiguous restart semantics and is a programmer error, rejected
    /// here.
    pub fn new(tween: T) -> (lp: Self)
        requires
            tween.wf(),
            tween.spec_finite(),
        ensures
            lp == (Looper { tween }),
    {
        Looper { tween }
    }
}

impl<T: Tween> Tween for Looper<T> {
    open spec fn spec_initial_value(&self) -> int {
        self.tween.spec_initial_value()
    }

    open spec fn spec_final_value(&self) -> int {
        self.tween.spec_final_value()
    }

    open spec fn spec_duration(&self) -> int {
        self.tween.spec_duration()
    }

    open spec fn spec_finite(&self) -> bool {
        false
    }

    open spec fn wf(&self) -> bool {
        self.tween.wf() && self.tween.spec_finite()
    }

    open spec fn accepts(&self, t: int) -> bool {
        0 <= t
    }

    open spec fn value_at(&self, t: int) -> int {
        self.tween.value_at(wrapped(t, self.tween.spec_duration()))
    }

    proof fn wf_props(&self, t: int) {
        self.tween.wf_props(t);
    }

    proof fn boundary_exact(&self) {
    }

    fn run(&mut self, new_time: i64) -> (value: i64) {
        proof {
            self.tween.wf_props(0);
        }
        let d = self.tween.duration();
        let wrapped_time: i64 = TweenTime::wrap(new_time, d);
        proof {
            lemma_wrapped_bounds(new_time as int, d as int);
            self.tween.wf_props(wrapped_time as int);
        }
        self.tween.run(wrapped_time)
    }

    fn duration(&self) -> (d: i64) {
        self.tween.duration()
    }

    fn initial_value(&self) -> (v: i64) {
        self.tween.initial_value()
    }

    fn final_value(&self) -> (v: i64) {
        self.tween.final_value()
    }

    fn is_finite(&self) -> (b: bool) {
        false
    }
}

/// Loop wraparound: a looping wrapper is periodic in its wrapped curve's
/// duration, so one whole cycle later it takes the very value it took a
/// cycle before, and each cycle restarts at the wrapped curve's initial
/// value.
pub proof fn lemma_looper_periodic<T: Tween>(lp: &Looper<T>, t: int)
    requires
        lp.wf(),
        0 <= t,
    ensures
        lp.value_at(t + lp.spec_duration()) == lp.value_at(t),
        lp.value_at(0) == lp.spec_initial_value(),
{
    lp.tween.wf_props(0);
    lemma_wrapped_periodic(t, lp.tween.spec_duration());
    lemma_small_mod(0, lp.tween.spec_duration() as nat);
    lp.tween.boundary_exact();
}

} // verus!
