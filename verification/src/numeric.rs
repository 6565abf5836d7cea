//! Interpolation helpers over any numeric type.
//!
//! The functions are generic over [`Real`], which every type with a unit and
//! the usual arithmetic operators implements. Each contract states the result
//! through the operator specifications of the type, and holds for every type
//! whose operators obey those specifications (all the primitive integers do).

use std::ops::{Add, Div, Mul, RangeInclusive, Sub};
use vstd::prelude::*;
use vstd::std_specs::cmp::{PartialEqSpec, PartialOrdIs, PartialOrdSpec};
use vstd::std_specs::ops::{AddSpec, DivSpec, MulSpec, SubSpec};

verus! {

/// A type with a multiplicative unit.
pub trait One: Sized {
    /// The unit of the type.
    const ONE: Self;
}

impl One for u8 {
    const ONE: u8 = 1;
}

impl One for u16 {
    const ONE: u16 = 1;
}

impl One for u32 {
    const ONE: u32 = 1;
}

impl One for u64 {
    const ONE: u64 = 1;
}

impl One for u128 {
    const ONE: u128 = 1;
}

impl One for usize {
    const ONE: usize = 1;
}

impl One for i8 {
    const ONE: i8 = 1;
}

impl One for i16 {
    const ONE: i16 = 1;
}

impl One for i32 {
    const ONE: i32 = 1;
}

impl One for i64 {
    const ONE: i64 = 1;
}

impl One for i128 {
    const ONE: i128 = 1;
}

impl One for isize {
    const ONE: isize = 1;
}

/// The unit of every primitive integer type is the number one.
pub proof fn lemma_integer_units()
    ensures
        <u8 as One>::ONE == 1,
        <u16 as One>::ONE == 1,
        <u32 as One>::ONE == 1,
        <u64 as One>::ONE == 1,
        <u128 as One>::ONE == 1,
        <usize as One>::ONE == 1,
        <i8 as One>::ONE == 1,
        <i16 as One>::ONE == 1,
        <i32 as One>::ONE == 1,
        <i64 as One>::ONE == 1,
        <i128 as One>::ONE == 1,
        <isize as One>::ONE == 1,
{
}

/// A number that can be interpolated: copyable, comparable, with a unit and the
/// four arithmetic operators.
pub trait Real:
    Copy
    + PartialEq
    + PartialOrd
    + One
    + Add<Self, Output = Self>
    + Sub<Self, Output = Self>
    + Mul<Self, Output = Self>
    + Div<Self, Output = Self>
{
}

impl<T> Real for T where
    T: Copy
        + PartialEq
        + PartialOrd
        + One
        + Add<T, Output = T>
        + Sub<T, Output = T>
        + Mul<T, Output = T>
        + Div<T, Output = T>,
{
}

/// Whether every operation that the interpolation helpers perform on `T` is
/// known to compute what its specification says.
pub open spec fn obeys_real<T: Real>() -> bool {
    &&& T::obeys_eq_spec()
    &&& T::obeys_partial_cmp_spec()
    &&& T::obeys_add_spec()
    &&& T::obeys_sub_spec()
    &&& T::obeys_mul_spec()
    &&& T::obeys_div_spec()
}

/// `RangeInclusive::start` returns the lower bound that the range was made
/// with, as long as the range has not been iterated to exhaustion.
pub assume_specification<Idx>[ RangeInclusive::<Idx>::start ](r: &RangeInclusive<Idx>) -> (s: &Idx)
    ensures
        !r@.exhausted ==> *s == r@.start,
;

/// `RangeInclusive::end` returns the upper bound that the range was made with,
/// as long as the range has not been iterated to exhaustion.
pub assume_specification<Idx>[ RangeInclusive::<Idx>::end ](r: &RangeInclusive<Idx>) -> (e: &Idx)
    ensures
        !r@.exhausted ==> *e == r@.end,
;

/// `(1 - t) * start + t * end`.
pub open spec fn lerp_spec<R, T>(start: R, end: R, t: T) -> R where
    T: Real + Mul<R, Output = R>,
    R: Copy + Add<R, Output = R>,
 {
    <T as MulSpec<R>>::mul_spec(<T as SubSpec<T>>::sub_spec(T::ONE, t), start).add_spec(
        <T as MulSpec<R>>::mul_spec(t, end),
    )
}

/// No operation of `lerp_spec(start, end, t)` overflows.
pub open spec fn lerp_req<R, T>(start: R, end: R, t: T) -> bool where
    T: Real + Mul<R, Output = R>,
    R: Copy + Add<R, Output = R>,
 {
    let rest = <T as SubSpec<T>>::sub_spec(T::ONE, t);
    &&& <T as SubSpec<T>>::sub_req(T::ONE, t)
    &&& <T as MulSpec<R>>::mul_req(rest, start)
    &&& <T as MulSpec<R>>::mul_req(t, end)
    &&& <T as MulSpec<R>>::mul_spec(rest, start).add_req(<T as MulSpec<R>>::mul_spec(t, end))
}

/// Linear interpolation: the point of `range` at fraction `t`, which is the
/// start of the range at 0 and its end at 1.
pub fn lerp<R, T>(range: RangeInclusive<R>, t: T) -> (r: R) where
    T: Real + Mul<R, Output = R>,
    R: Copy + Add<R, Output = R>,

    requires
        !range@.exhausted,
        <T as SubSpec<T>>::obeys_sub_spec(),
        <T as MulSpec<R>>::obeys_mul_spec(),
        lerp_req(range@.start, range@.end, t),
    ensures
        <R as AddSpec<R>>::obeys_add_spec() ==> r == lerp_spec(range@.start, range@.end, t),
{
    (T::ONE - t) * *range.start() + t * *range.end()
}

/// `(value - min) / (max - min)`, or nothing for an empty range.
pub open spec fn inverse_lerp_spec<R>(min: R, max: R, value: R) -> Option<R> where
    R: Copy + PartialEq + Sub<R, Output = R> + Div<R, Output = R>,
 {
    if min.eq_spec(&max) {
        None
    } else {
        Some(value.sub_spec(min).div_spec(max.sub_spec(min)))
    }
}

/// No operation of `inverse_lerp_spec(min, max, value)` overflows.
pub open spec fn inverse_lerp_req<R>(min: R, max: R, value: R) -> bool where
    R: Copy + PartialEq + Sub<R, Output = R> + Div<R, Output = R>,
 {
    !min.eq_spec(&max) ==> {
        &&& value.sub_req(min)
        &&& max.sub_req(min)
        &&& value.sub_spec(min).div_req(max.sub_spec(min))
    }
}

/// Where in `range` the value lies: 0 at the start, 1 at the end, below 0
/// before the range and above 1 after it. A range of zero width has no answer.
pub fn inverse_lerp<R>(range: RangeInclusive<R>, value: R) -> (r: Option<R>) where
    R: Copy + PartialEq + Sub<R, Output = R> + Div<R, Output = R>,

    requires
        !range@.exhausted,
        R::obeys_eq_spec(),
        <R as SubSpec<R>>::obeys_sub_spec(),
        inverse_lerp_req(range@.start, range@.end, value),
    ensures
        <R as DivSpec<R>>::obeys_div_spec() ==> r == inverse_lerp_spec(
            range@.start,
            range@.end,
            value,
        ),
        r is None <==> range@.start.eq_spec(&range@.end),
{
    let min = *range.start();
    let max = *range.end();
    if min == max {
        None
    } else {
        Some((value - min) / (max - min))
    }
}

/// The fraction of the way that `x` lies from `start` to `end`.
pub open spec fn fraction_spec<T: Real>(x: T, start: T, end: T) -> T {
    x.sub_spec(start).div_spec(end.sub_spec(start))
}

/// No operation of `fraction_spec(x, start, end)` overflows or divides by zero.
pub open spec fn fraction_req<T: Real>(x: T, start: T, end: T) -> bool {
    &&& x.sub_req(start)
    &&& end.sub_req(start)
    &&& x.sub_spec(start).div_req(end.sub_spec(start))
}

/// `x` carried from the range `from` over to the range `to`.
pub open spec fn remap_spec<T: Real>(x: T, from_start: T, from_end: T, to_start: T, to_end: T) -> T {
    lerp_spec(to_start, to_end, fraction_spec(x, from_start, from_end))
}

/// No operation of `remap_spec` overflows or divides by zero.
pub open spec fn remap_req<T: Real>(x: T, from_start: T, from_end: T, to_start: T, to_end: T) -> bool {
    &&& fraction_req(x, from_start, from_end)
    &&& lerp_req(to_start, to_end, fraction_spec(x, from_start, from_end))
}

/// Linearly remaps a value from one range to another, so that the start of
/// `from` lands on the start of `to` and the end of `from` on the end of `to`.
/// The range `from` must not be empty.
pub fn remap<T: Real>(x: T, from: RangeInclusive<T>, to: RangeInclusive<T>) -> (r: T)
    requires
        !from@.exhausted,
        !to@.exhausted,
        obeys_real::<T>(),
        !from@.start.eq_spec(&from@.end),
        remap_req(x, from@.start, from@.end, to@.start, to@.end),
    ensures
        r == remap_spec(x, from@.start, from@.end, to@.start, to@.end),
{
    let t = (x - *from.start()) / (*from.end() - *from.start());
    lerp(to, t)
}

/// `remap_clamp` on a range `from` whose start is not above its end.
pub open spec fn remap_clamp_ordered_spec<T: Real>(
    x: T,
    from_start: T,
    from_end: T,
    to_start: T,
    to_end: T,
) -> T {
    if x.is_le(&from_start) {
        to_start
    } else if from_end.is_le(&x) {
        to_end
    } else {
        let t = fraction_spec(x, from_start, from_end);
        if T::ONE.is_le(&t) {
            to_end
        } else {
            lerp_spec(to_start, to_end, t)
        }
    }
}

/// `x` carried from `from` over to `to`, and held inside `to`: a value at or
/// before the lower end of `from` gives the matching end of `to`, a value at or
/// after its upper end the other one. A range `from` that runs downwards is
/// read upwards, together with `to`.
pub open spec fn remap_clamp_spec<T: Real>(
    x: T,
    from_start: T,
    from_end: T,
    to_start: T,
    to_end: T,
) -> T {
    if from_end.is_lt(&from_start) {
        remap_clamp_ordered_spec(x, from_end, from_start, to_end, to_start)
    } else {
        remap_clamp_ordered_spec(x, from_start, from_end, to_start, to_end)
    }
}

/// No operation that `remap_clamp_ordered_spec` performs overflows or divides
/// by zero.
pub open spec fn remap_clamp_ordered_req<T: Real>(
    x: T,
    from_start: T,
    from_end: T,
    to_start: T,
    to_end: T,
) -> bool {
    !x.is_le(&from_start) && !from_end.is_le(&x) ==> {
        let t = fraction_spec(x, from_start, from_end);
        &&& fraction_req(x, from_start, from_end)
        &&& !T::ONE.is_le(&t) ==> lerp_req(to_start, to_end, t)
    }
}

/// No operation that `remap_clamp_spec` performs overflows or divides by zero.
pub open spec fn remap_clamp_req<T: Real>(
    x: T,
    from_start: T,
    from_end: T,
    to_start: T,
    to_end: T,
) -> bool {
    if from_end.is_lt(&from_start) {
        remap_clamp_ordered_req(x, from_end, from_start, to_end, to_start)
    } else {
        remap_clamp_ordered_req(x, from_start, from_end, to_start, to_end)
    }
}

/// Like [`remap`], but the result always lies in the range `to`.
pub fn remap_clamp<T: Real>(x: T, from: RangeInclusive<T>, to: RangeInclusive<T>) -> (r: T)
    requires
        !from@.exhausted,
        !to@.exhausted,
        obeys_real::<T>(),
        remap_clamp_req(x, from@.start, from@.end, to@.start, to@.end),
    ensures
        r == remap_clamp_spec(x, from@.start, from@.end, to@.start, to@.end),
{
    let reversed = *from.end() < *from.start();
    let from_start = if reversed { *from.end() } else { *from.start() };
    let from_end = if reversed { *from.start() } else { *from.end() };
    let to_start = if reversed { *to.end() } else { *to.start() };
    let to_end = if reversed { *to.start() } else { *to.end() };
    if x <= from_start {
        to_start
    } else if from_end <= x {
        to_end
    } else {
        let t = (x - from_start) / (from_end - from_start);
        // A fraction of the whole range goes to the end itself, whatever rounding did.
        if T::ONE <= t {
            to_end
        } else {
            lerp(RangeInclusive::new(to_start, to_end), t)
        }
    }
}

/// `at_least` and `at_most` as readable names for the larger and the smaller of
/// two values.
pub trait NumExt: Sized {
    /// Whether the two methods are known to return what their specifications say.
    spec fn obeys_num_ext() -> bool;

    /// The larger of `self` and `lower_limit`.
    spec fn at_least_spec(self, lower_limit: Self) -> Self;

    /// The smaller of `self` and `upper_limit`.
    spec fn at_most_spec(self, upper_limit: Self) -> Self;

    /// `self`, raised to `lower_limit` where it is below it.
    fn at_least(self, lower_limit: Self) -> (r: Self)
        ensures
            Self::obeys_num_ext() ==> r == self.at_least_spec(lower_limit),
    ;

    /// `self`, lowered to `upper_limit` where it is above it.
    fn at_most(self, upper_limit: Self) -> (r: Self)
        ensures
            Self::obeys_num_ext() ==> r == self.at_most_spec(upper_limit),
    ;
}

impl<T: Copy + PartialOrd> NumExt for T {
    open spec fn obeys_num_ext() -> bool {
        T::obeys_partial_cmp_spec()
    }

    open spec fn at_least_spec(self, lower_limit: T) -> T {
        if self.is_lt(&lower_limit) {
            lower_limit
        } else {
            self
        }
    }

    open spec fn at_most_spec(self, upper_limit: T) -> T {
        if upper_limit.is_lt(&self) {
            upper_limit
        } else {
            self
        }
    }

    fn at_least(self, lower_limit: T) -> (r: T) {
        if self < lower_limit {
            lower_limit
        } else {
            self
        }
    }

    fn at_most(self, upper_limit: T) -> (r: T) {
        if upper_limit < self {
            upper_limit
        } else {
            self
        }
    }
}

} // verus!
