//! The extrapolating wrapper: removes the drivers' clamp and evaluates
//! the wrapped curve beyond its nominal domain.

use vstd::prelude::*;
use crate::Tween;

verus! {

/// Wraps a curve and passes times beyond the nominal `[0, duration]`
/// straight through to it, with no clamping. It is intended for curves
/// whose formulas remain well-defined outside their nominal range;
/// choosing a compatible curve is the caller's responsibility, and the
/// wrapper validates nothing beyond what the wrapped curve itself
/// accepts.
#[derive(Clone, Copy, Debug)]
pub struct Extrapolate<T: Tween> {
    /// The wrapped curve.
    pub tween: T,
}

impl<T: Tween> Extrapolate<T> {
    /// Wraps a curve, lifting the drivers' clamp from it.
    pub fn new(tween: T) -> (ex: Self)
        requires
            tween.wf(),
        ensures
            ex == (Extrapolate { tween }),
    {
        Extrapolate { tween }
    }
}

impl<T: Tween> Tween for Extrapolate<T> {
    open spec fn spec_initial_value(&self) -> int {
        self.tween.spec_initial_value()
    }

    open spec fn spec_final_value(&self) -> int {
        self.tween.spec_final_value()
    }

    open spec fn spec_duration(&self) -> int {
        self.tween.spec_duration()
    }

    open spec fn spec_finite(&self) -> bool {
        false
    }

    open spec fn wf(&self) -> bool {
        self.tween.wf()
    }

    open spec fn accepts(&self, t: int) -> bool {
        self.tween.accepts(t)
    }

    open spec fn value_at(&self, t: int) -> int {
        self.tween.value_at(t)
    }

    proof fn wf_props(&self, t: int) {
        self.tween.wf_props(t);
    }

    proof fn boundary_exact(&self) {
    }

    fn run(&mut self, new_time: i64) -> (value: i64) {
        self.tween.run(new_time)
    }

    fn duration(&self) -> (d: i64) {
        self.tween.duration()
    }

    fn initial_value(&self) -> (v: i64) {
        self.tween.initial_value()
    }

    fn final_value(&self) -> (v: i64) {
        self.tween.final_value()
    }

    fn is_finite(&self) -> (b: bool) {
        false
    }
}

} // verus!
