//! The tween drivers: stateful wrappers that own one curve and a time
//! cursor and expose an "advance time, get value" operation.

use vstd::prelude::*;
use crate::Tween;
use crate::numeric::TweenTime;
use crate::math::{accumulated, clamped, lemma_accumulated_is_sum, sum_of};

verus! {

/// The absolute-time driver. Each call hands it the new absolute elapsed
/// time; for a finite curve the time is clamped into the curve's nominal
/// domain before it is stored and evaluated.
#[derive(Clone, Copy, Debug)]
pub struct Tweener<T: Tween> {
    /// The driven curve.
    pub tween: T,
    /// The time cursor: the last elapsed time stored, clamped for a
    /// finite curve.
    pub current_time: i64,
}

impl<T: Tween> Tweener<T> {
    /// The driver's invariant: its curve is well formed and its cursor
    /// stands where the curve accepts it.
    pub open spec fn wf(&self) -> bool {
        self.tween.wf()
    }

    /// Creates a driver for the given curve, with the cursor at time
    /// zero.
    pub fn new(tween: T) -> (tw: Self)
        requires
            tween.wf(),
        ensures
            tw == (Tweener { tween, current_time: 0i64 }),
    {
        Tweener { tween, current_time: 0 }
    }

    /// Advances the cursor to the given absolute time and returns the
    /// curve's value there. For a finite curve the time is clamped into
    /// `[0, duration]` first; an infinite curve takes the time as it
    /// came.
    pub fn move_to(&mut self, new_time: i64) -> (value: i64)
        requires
            old(self).wf(),
            !old(self).tween.spec_finite() ==> old(self).tween.accepts(new_time as int),
        ensures
            final(self).tween == old(self).tween,
            old(self).tween.spec_finite() ==> final(self).current_time as int == clamped(
                new_time as int,
                old(self).tween.spec_duration(),
            ),
            !old(self).tween.spec_finite() ==> final(self).current_time == new_time,
            value as int == old(self).tween.value_at(final(self).current_time as int),
    {
        if self.tween.is_finite() {
            let d = self.tween.duration();
            let clamped_time: i64 = if new_time <= 0 {
                0
            } else if new_time >= d {
                d
            } else {
                new_time
            };
            proof {
                self.tween.wf_props(clamped_time as int);
            }
            let value = self.tween.run(clamped_time);
            self.current_time = clamped_time;
            value
        } else {
            let value = self.tween.run(new_time);
            self.current_time = new_time;
            value
        }
    }

    /// Whether the animation has run its course: true once the cursor
    /// has reached the duration of a finite curve. An infinite curve
    /// never finishes.
    pub fn is_finished(&self) -> (b: bool)
        requires
            self.wf(),
        ensures
            b == (self.tween.spec_finite() && self.current_time as int
                >= self.tween.spec_duration()),
    {
        self.tween.is_finite() && TweenTime::is_complete(self.current_time, self.tween.duration())
    }
}

/// The delta-accumulating driver. Each call hands it a time delta; the
/// deltas accumulate into an absolute time, which is then driven as the
/// absolute driver would. The accumulator itself is never clamped, so a
/// delta far beyond the remaining duration merely parks the evaluation
/// at the boundary.
#[derive(Clone, Copy, Debug)]
pub struct DeltaTweener<T: Tween> {
    /// The driven curve.
    pub tween: T,
    /// The accumulated elapsed time, as the raw sum of all deltas.
    pub current_time: i64,
}

impl<T: Tween> DeltaTweener<T> {
    /// The driver's invariant: its curve is well formed.
    pub open spec fn wf(&self) -> bool {
        self.tween.wf()
    }

    /// Creates a driver for the given curve, with no time accumulated.
    pub fn new(tween: T) -> (tw: Self)
        requires
            tween.wf(),
        ensures
            tw == (DeltaTweener { tween, current_time: 0i64 }),
    {
        DeltaTweener { tween, current_time: 0 }
    }

    /// Adds the delta to the accumulated time and returns the curve's
    /// value there, clamped into the nominal domain for a finite curve.
    pub fn move_by(&mut self, delta: i64) -> (value: i64)
        requires
            old(self).wf(),
            i64::MIN <= old(self).current_time + delta <= i64::MAX,
            !old(self).tween.spec_finite() ==> old(self).tween.accepts(
                old(self).current_time + delta,
            ),
        ensures
            final(self).tween == old(self).tween,
            final(self).current_time == old(self).current_time + delta,
            old(self).tween.spec_finite() ==> value as int == old(self).tween.value_at(
                clamped(old(self).current_time + delta, old(self).tween.spec_duration()),
            ),
            !old(self).tween.spec_finite() ==> value as int == old(self).tween.value_at(
                old(self).current_time + delta,
            ),
    {
        self.current_time = self.current_time + delta;
        if self.tween.is_finite() {
            let d = self.tween.duration();
            let clamped_time: i64 = if self.current_time <= 0 {
                0
            } else if self.current_time >= d {
                d
            } else {
                self.current_time
            };
            proof {
                self.tween.wf_props(clamped_time as int);
            }
            self.tween.run(clamped_time)
        } else {
            self.tween.run(self.current_time)
        }
    }

    /// Whether the accumulated time has reached the duration of a finite
    /// curve. An infinite curve never finishes.
    pub fn is_finished(&self) -> (b: bool)
        requires
            self.wf(),
        ensures
            b == (self.tween.spec_finite() && self.current_time as int
                >= self.tween.spec_duration()),
    {
        self.tween.is_finite() && TweenTime::is_complete(self.current_time, self.tween.duration())
    }
}

/// The fixed-step driver: a delta driver that advances by one constant,
/// caller-supplied step per call, so that call sites need not re-supply
/// the same delta every frame.
#[derive(Clone, Copy, Debug)]
pub struct FixedTweener<T: Tween> {
    /// The underlying delta driver.
    pub tweener: DeltaTweener<T>,
    /// The constant step added on every call.
    pub delta: i64,
}

impl<T: Tween> FixedTweener<T> {
    /// The driver's invariant: its delta driver is well formed.
    pub open spec fn wf(&self) -> bool {
        self.tweener.wf()
    }

    /// Creates a driver for the given curve that advances by `delta` on
    /// every call, with no time accumulated yet.
    pub fn new(tween: T, delta: i64) -> (tw: Self)
        requires
            tween.wf(),
        ensures
            tw == (FixedTweener {
                tweener: DeltaTweener { tween, current_time: 0i64 },
                delta,
            }),
    {
        FixedTweener { tweener: DeltaTweener::new(tween), delta }
    }

    /// Advances by the constant step and returns the curve's value at
    /// the accumulated time, clamped into the nominal domain for a
    /// finite curve.
    pub fn move_next(&mut self) -> (value: i64)
        requires
            old(self).wf(),
            i64::MIN <= old(self).tweener.current_time + old(self).delta <= i64::MAX,
            !old(self).tweener.tween.spec_finite() ==> old(self).tweener.tween.accepts(
                old(self).tweener.current_time + old(self).delta,
            ),
        ensures
            final(self).delta == old(self).delta,
            final(self).tweener.tween == old(self).tweener.tween,
            final(self).tweener.current_time == old(self).tweener.current_time + old(self).delta,
            old(self).tweener.tween.spec_finite() ==> value as int
                == old(self).tweener.tween.value_at(
                clamped(
                    old(self).tweener.current_time + old(self).delta,
                    old(self).tweener.tween.spec_duration(),
                ),
            ),
            !old(self).tweener.tween.spec_finite() ==> value as int
                == old(self).tweener.tween.value_at(
                old(self).tweener.current_time + old(self).delta,
            ),
    {
        let delta = self.delta;
        self.tweener.move_by(delta)
    }

    /// Whether the accumulated time has reached the duration of a finite
    /// curve. An infinite curve never finishes.
    pub fn is_finished(&self) -> (b: bool)
        requires
            self.wf(),
        ensures
            b == (self.tweener.tween.spec_finite() && self.tweener.current_time as int
                >= self.tweener.tween.spec_duration()),
    {
        self.tweener.is_finished()
    }
}

/// Delta driver equivalence: feeding a delta driver any sequence of
/// deltas, one `move_by` call each, leaves its accumulator at the sum of
/// the deltas, so its last returned value is exactly what one
/// `Tweener::move_to` call at the single absolute time `sum_of(deltas)`
/// returns for the same finite curve.
pub proof fn lemma_delta_driver_equivalence<T: Tween>(tw: &T, deltas: Seq<int>)
    requires
        tw.wf(),
        tw.spec_finite(),
        deltas.len() > 0,
    ensures
        accumulated(0, deltas) == sum_of(deltas),
        tw.value_at(clamped(accumulated(0, deltas), tw.spec_duration())) == tw.value_at(
            clamped(sum_of(deltas), tw.spec_duration()),
        ),
{
    lemma_accumulated_is_sum(0, deltas);
}

/// Idempotent completion: any absolute time at or beyond the duration of
/// a finite curve clamps to the duration itself and evaluates to exactly
/// the final value. So once a driver's cursor has reached the duration,
/// repeated advances to such times keep returning the final value and
/// the driver keeps reporting itself finished.
pub proof fn lemma_completion_idempotent<T: Tween>(tw: &T, t: int)
    requires
        tw.wf(),
        tw.spec_finite(),
        t >= tw.spec_duration(),
    ensures
        clamped(t, tw.spec_duration()) == tw.spec_duration(),
        tw.value_at(clamped(t, tw.spec_duration())) == tw.spec_final_value(),
{
    tw.wf_props(0);
    tw.boundary_exact();
}

} // verus!
