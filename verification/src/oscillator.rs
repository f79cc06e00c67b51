//! The oscillating wrapper: repeats a finite curve forever, reversing
//! direction each cycle.

use vstd::prelude::*;
use crate::Tween;
use crate::math::{ping_pong, lemma_ping_pong_bounds, lemma_ping_pong_periodic};
use vstd::arithmetic::div_mod::lemma_small_mod;

verus! {

/// Wraps a finite curve and plays it forward and backward in turn: the
/// elapsed time is folded into the curve's duration, reversing the time
/// axis on every other cycle. An oscillator never finishes, so it is
/// infinite.
#[derive(Clone, Copy, Debug)]
pub struct Oscillator<T: Tween> {
    /// The wrapped curve.
    pub tween: T,
}

impl<T: Tween> Oscillator<T> {
    /// Wraps a finite curve. Wrapping an infinite curve would have
    /// ambiguous restart semantics and is a programmer error, rejected
    /// here.
    pub fn new(tween: T) -> (os: Self)
        requires
            tween.wf(),
            tween.spec_finite(),
        ensures
            os == (Oscillator { tween }),
    {
        Oscillator { tween }
    }
}

impl<T: Tween> Tween for Oscillator<T> {
    open spec fn spec_initial_value(&self) -> int {
        self.tween.spec_initial_value()
    }

    open spec fn spec_final_value(&self) -> int {
        self.tween.spec_final_value()
    }

    open spec fn spec_duration(&self) -> int {
        self.tween.spec_duration()
    }

    open spec fn spec_finite(&self) -> bool {
        false
    }

    open spec fn wf(&self) -> bool {
        self.tween.wf() && self.tween.spec_finite()
    }

    open spec fn accepts(&self, t: int) -> bool {
        0 <= t
    }

    open spec fn value_at(&self, t: int) -> int {
        self.tween.value_at(ping_pong(t, self.tween.spec_duration()))
    }

    proof fn wf_props(&self, t: int) {
        self.tween.wf_props(t);
    }

    proof fn boundary_exact(&self) {
    }

    fn run(&mut self, new_time: i64) -> (value: i64) {
        proof {
            self.tween.wf_props(0);
        }
        let d = self.tween.duration();
        let two_cycles: u64 = 2 * (d as u64);
        let m: u64 = (new_time as u64) % two_cycles;
        let folded_time: i64 = if m <= d as u64 {
            m as i64
        } else {
            (two_cycles - m) as i64
        };
        proof {
            lemma_ping_pong_bounds(new_time as int, d as int);
            assert(folded_time as int == ping_pong(new_time as int, d as int));
            self.tween.wf_props(folded_time as int);
        }
        self.tween.run(folded_time)
    }

    fn duration(&self) -> (d: i64) {
        self.tween.duration()
    }

    fn initial_value(&self) -> (v: i64) {
        self.tween.initial_value()
    }

    fn final_value(&self) -> (v: i64) {
        self.tween.final_value()
    }

    fn is_finite(&self) -> (b: bool) {
        false
    }
}

/// An oscillator is periodic in twice its wrapped curve's duration; one
/// cycle in it stands at the wrapped curve's final value, and at the
/// start of each double cycle it stands at the initial value again.
pub proof fn lemma_oscillator_periodic<T: Tween>(os: &Oscillator<T>, t: int)
    requires
        os.wf(),
        0 <= t,
    ensures
        os.value_at(t + 2 * os.spec_duration()) == os.value_at(t),
        os.value_at(0) == os.spec_initial_value(),
        os.value_at(os.spec_duration()) == os.spec_final_value(),
{
    let d = os.tween.spec_duration();
    os.tween.wf_props(0);
    lemma_ping_pong_periodic(t, d);
    lemma_small_mod(0, (2 * d) as nat);
    lemma_small_mod(d as nat, (2 * d) as nat);
    os.tween.boundary_exact();
}

} // verus!
