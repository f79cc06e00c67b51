//! The numeric capability traits: what a value and a time must support
//! for the engine to drive them. The library supplies the `i64`
//! instantiation, verified; a collaborator's own value or time type
//! implements the same contracts.
//!
//! A fraction of a duration is carried as a numerator/denominator pair
//! of times, and scaling by it rounds toward zero, deterministically;
//! `scale` by `0/den` yields exactly zero and by `den/den` exactly the
//! value itself (`math::lemma_scale_trunc_boundaries`), which is what
//! keeps the curves' boundary frames exact.

use vstd::prelude::*;
use crate::math::{in_i64, scale_trunc, wrapped, lemma_wrapped_bounds};
use vstd::arithmetic::div_mod::{lemma_div_nonincreasing, lemma_div_pos_is_pos};
use vstd::arithmetic::mul::{lemma_mul_inequality, lemma_mul_upper_bound};

verus! {

/// A value which can be tweened: it has a mathematical model and can be
/// scaled by a fraction of a duration, rounding deterministically.
pub trait TweenValue: Sized + Copy {
    /// The mathematical value this representation stands for.
    spec fn spec_value(&self) -> int;

    /// Whether a mathematical value is representable.
    spec fn representable(x: int) -> bool;

    /// The additive zero.
    fn zero() -> (z: Self)
        ensures
            z.spec_value() == 0,
    ;

    /// The value scaled by the fraction `num / den`, rounded toward
    /// zero.
    fn scale(self, num: i64, den: i64) -> (r: Self)
        requires
            0 <= num,
            0 < den,
            Self::representable(scale_trunc(self.spec_value(), num as int, den as int)),
        ensures
            r.spec_value() == scale_trunc(self.spec_value(), num as int, den as int),
    ;
}

/// A representation of time: ordered, with a zero, a completion test
/// against a duration, a wraparound operation for the looping wrappers,
/// and scaling by a fraction.
pub trait TweenTime: Sized + Copy {
    /// The mathematical time this representation stands for.
    spec fn spec_time(&self) -> int;

    /// Whether a mathematical time is representable.
    spec fn representable(x: int) -> bool;

    /// The zero time.
    fn zero() -> (z: Self)
        ensures
            z.spec_time() == 0,
    ;

    /// Whether this time has reached the given duration.
    fn is_complete(self, duration: Self) -> (b: bool)
        ensures
            b == (self.spec_time() >= duration.spec_time()),
    ;

    /// This time wrapped into `[0, duration)`.
    fn wrap(self, duration: Self) -> (r: Self)
        requires
            0 <= self.spec_time(),
            0 < duration.spec_time(),
        ensures
            r.spec_time() == wrapped(self.spec_time(), duration.spec_time()),
    ;

    /// The time scaled by the fraction `num / den`, rounded toward
    /// zero.
    fn scale(self, num: i64, den: i64) -> (r: Self)
        requires
            0 <= num,
            0 < den,
            Self::representable(scale_trunc(self.spec_time(), num as int, den as int)),
        ensures
            r.spec_time() == scale_trunc(self.spec_time(), num as int, den as int),
    ;
}

/// An `i64` scaled by the fraction `num / den`, rounded toward zero: the
/// shared scaling behind the `i64` value and time instantiations.
pub fn scale_i64(value: i64, num: i64, den: i64) -> (r: i64)
    requires
        0 <= num,
        0 < den,
        in_i64(scale_trunc(value as int, num as int, den as int)),
    ensures
        r as int == scale_trunc(value as int, num as int, den as int),
{
    let den_u: u128 = den as u128;
    let num_u: u128 = num as u128;
    if value >= 0 {
        let mag_in: u128 = value as u128;
        proof {
            lemma_mul_upper_bound(mag_in as int, u64::MAX as int, num_u as int, i64::MAX as int);
            lemma_mul_inequality(0, mag_in as int, num_u as int);
            lemma_div_pos_is_pos((mag_in * num_u) as int, den_u as int);
            lemma_div_nonincreasing((mag_in * num_u) as int, den_u as int);
        }
        let mag: u128 = mag_in * num_u / den_u;
        mag as i64
    } else {
        let mag_in: u128 = (-(value as i128)) as u128;
        proof {
            lemma_mul_upper_bound(mag_in as int, u64::MAX as int, num_u as int, i64::MAX as int);
            lemma_mul_inequality(0, mag_in as int, num_u as int);
            lemma_div_pos_is_pos((mag_in * num_u) as int, den_u as int);
            lemma_div_nonincreasing((mag_in * num_u) as int, den_u as int);
        }
        let mag: u128 = mag_in * num_u / den_u;
        (-(mag as i128)) as i64
    }
}

impl TweenValue for i64 {
    open spec fn spec_value(&self) -> int {
        *self as int
    }

    open spec fn representable(x: int) -> bool {
        in_i64(x)
    }

    fn zero() -> (z: Self) {
        0
    }

    fn scale(self, num: i64, den: i64) -> (r: Self) {
        scale_i64(self, num, den)
    }
}

impl TweenTime for i64 {
    open spec fn spec_time(&self) -> int {
        *self as int
    }

    open spec fn representable(x: int) -> bool {
        in_i64(x)
    }

    fn zero() -> (z: Self) {
        0
    }

    fn is_complete(self, duration: Self) -> (b: bool) {
        self >= duration
    }

    fn wrap(self, duration: Self) -> (r: Self) {
        proof {
            lemma_wrapped_bounds(self as int, duration as int);
        }
        ((self as u64) % (duration as u64)) as i64
    }

    fn scale(self, num: i64, den: i64) -> (r: Self) {
        scale_i64(self, num, den)
    }
}

} // verus!
