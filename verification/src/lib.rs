//! An interpolation engine: given a start value, an end value and a
//! duration, it computes intermediate values as a function of elapsed
//! time, using a selectable easing curve. Values and times are `i64`
//! scalars; scaling by a fraction of the duration rounds toward zero,
//! deterministically. Curves are logically immutable after construction;
//! stateful drivers wrap a curve and advance a time cursor across calls.

use vstd::prelude::*;

pub mod math;
pub mod numeric;
pub mod linear;
pub mod looper;
pub mod oscillator;
pub mod extrapolate;
pub mod tweener;

pub use extrapolate::Extrapolate;
pub use numeric::{TweenTime, TweenValue};
pub use linear::Linear;
pub use looper::Looper;
pub use oscillator::Oscillator;
pub use tweener::{DeltaTweener, FixedTweener, Tweener};

verus! {

/// The core trait of the library, which every curve and every curve
/// wrapper implements.
///
/// A curve maps an elapsed time to an output value, owns its endpoints
/// and duration, and declares whether it is finite. A finite curve
/// produces its intended output only within `[0, duration]` and is
/// clamped there by the drivers; an infinite one may be evaluated at any
/// accepted time and never finishes.
pub trait Tween: Sized {
    /// The value the curve starts from.
    spec fn spec_initial_value(&self) -> int;

    /// The value the curve ends at.
    spec fn spec_final_value(&self) -> int;

    /// The curve's nominal duration.
    spec fn spec_duration(&self) -> int;

    /// Whether the curve is finite: meaningful only within its nominal
    /// duration, to be clamped outside it.
    spec fn spec_finite(&self) -> bool;

    /// The curve's construction invariant.
    spec fn wf(&self) -> bool;

    /// The times at which the curve may be evaluated. Every time within
    /// the nominal duration of a finite curve is accepted; what a curve
    /// accepts beyond that is its own affair.
    spec fn accepts(&self, t: int) -> bool;

    /// The curve's mathematical shape: the value it takes at time `t`.
    spec fn value_at(&self, t: int) -> int;

    /// A well-formed curve has a positive duration and accepts its whole
    /// nominal domain when finite.
    proof fn wf_props(&self, t: int)
        requires
            self.wf(),
        ensures
            self.spec_duration() > 0,
            self.spec_finite() && 0 <= t <= self.spec_duration() ==> self.accepts(t),
    ;

    /// Boundary exactness: a finite curve takes exactly its initial value
    /// at time zero and exactly its final value at its duration, never an
    /// approximation.
    proof fn boundary_exact(&self)
        requires
            self.wf(),
            self.spec_finite(),
        ensures
            self.value_at(0) == self.spec_initial_value(),
            self.value_at(self.spec_duration()) == self.spec_final_value(),
    ;

    /// Evaluates the curve at the given time. Curves are logically
    /// immutable: the call leaves the curve as it was.
    fn run(&mut self, new_time: i64) -> (value: i64)
        requires
            old(self).wf(),
            old(self).accepts(new_time as int),
        ensures
            *final(self) == *old(self),
            value as int == old(self).value_at(new_time as int),
    ;

    /// The curve's nominal duration.
    fn duration(&self) -> (d: i64)
        requires
            self.wf(),
        ensures
            d as int == self.spec_duration(),
    ;

    /// The value the curve starts from.
    fn initial_value(&self) -> (v: i64)
        ensures
            v as int == self.spec_initial_value(),
    ;

    /// The value the curve ends at.
    fn final_value(&self) -> (v: i64)
        ensures
            v as int == self.spec_final_value(),
    ;

    /// Whether the curve is finite. Drivers clamp finite curves to their
    /// nominal domain and report completion for them alone.
    fn is_finite(&self) -> (b: bool)
        ensures
            b == self.spec_finite(),
    ;

    /// Convenience shortcut that turns this finite curve into a looping
    /// wrapper around itself.
    fn into_loop(self) -> (lp: crate::looper::Looper<Self>)
        requires
            self.wf(),
            self.spec_finite(),
        ensures
            lp == (crate::looper::Looper { tween: self }),
    {
        crate::looper::Looper { tween: self }
    }

    /// Convenience shortcut that turns this finite curve into an
    /// oscillating wrapper around itself.
    fn into_oscillator(self) -> (os: crate::oscillator::Oscillator<Self>)
        requires
            self.wf(),
            self.spec_finite(),
        ensures
            os == (crate::oscillator::Oscillator { tween: self }),
    {
        crate::oscillator::Oscillator { tween: self }
    }
}

} // verus!
