//! The easing curves. `t` is the time, `b` the start value, `c` the change
//! in value and `d` the duration; `x` is the normalized progress.
use core::cmp::Ordering;
use core::ops::{Add, Div, Mul, Neg, Sub};
use vstd::prelude::*;
use vstd::std_specs::cmp::PartialOrdSpec;
use vstd::std_specs::convert::FromSpec;
use vstd::std_specs::ops::{AddSpec, DivSpec, MulSpec, NegSpec, SubSpec};

use crate::numeric::{
    exact_mda, exact_ord, exact_shift, exact_signed, mul_pow, mul_pow_req, one, scale_pow, total_mda,
    total_shift, total_signed, two,
};

verus! {

// ---------------------------------------------------------------- linear

/// `c * t / d + b`, in `T`'s own operations.
pub open spec fn linear_tween_spec<T>(t: T, b: T, c: T, d: T) -> T where
    T: Mul<Output = T> + Div<Output = T> + Add<Output = T>,
 {
    c.mul_spec(t).div_spec(d).add_spec(b)
}

/// Each operation of `c * t / d + b` is within `T`'s own domain
/// (no overflow, no division by zero).
pub open spec fn linear_tween_req<T>(t: T, b: T, c: T, d: T) -> bool where
    T: Mul<Output = T> + Div<Output = T> + Add<Output = T>,
 {
    &&& c.mul_req(t)
    &&& c.mul_spec(t).div_req(d)
    &&& c.mul_spec(t).div_spec(d).add_req(b)
}

/// Linear interpolation: `c * t / d + b`.
pub fn linear_tween<T>(t: T, b: T, c: T, d: T) -> (r: T) where
    T: Mul<Output = T> + Div<Output = T> + Add<Output = T> + Copy,
    requires
        (exact_mda::<T>() && linear_tween_req(t, b, c, d)) || total_mda::<T>(),
    ensures
        exact_mda::<T>() ==> r == linear_tween_spec(t, b, c, d),
{
    c * t / d + b
}

// ---------------------------------------------------------------- "in" curves

/// `c * x^n + b` with `x = t / d`, the products taken from the left.
pub open spec fn in_pow_spec<T>(t: T, b: T, c: T, d: T, n: nat) -> T where
    T: Mul<Output = T> + Div<Output = T> + Add<Output = T>,
 {
    mul_pow(c, t.div_spec(d), n).add_spec(b)
}

/// Each operation of `in_pow_spec(t, b, c, d, n)` is within `T`'s own domain.
pub open spec fn in_pow_req<T>(t: T, b: T, c: T, d: T, n: nat) -> bool where
    T: Mul<Output = T> + Div<Output = T> + Add<Output = T>,
 {
    &&& t.div_req(d)
    &&& mul_pow_req(c, t.div_spec(d), n)
    &&& mul_pow(c, t.div_spec(d), n).add_req(b)
}

fn in_pow<T>(t: T, b: T, c: T, d: T, n: u32) -> (r: T) where
    T: Mul<Output = T> + Div<Output = T> + Add<Output = T> + Copy,
    requires
        (exact_mda::<T>() && in_pow_req(t, b, c, d, n as nat)) || total_mda::<T>(),
    ensures
        exact_mda::<T>() ==> r == in_pow_spec(t, b, c, d, n as nat),
{
    let x = t / d;
    scale_pow(c, x, n) + b
}

/// Quadratic ease-in: `c * x * x + b` with `x = t / d`.
pub fn in_quad<T>(t: T, b: T, c: T, d: T) -> (r: T) where
    T: Mul<Output = T> + Div<Output = T> + Add<Output = T> + Copy,
    requires
        (exact_mda::<T>() && in_pow_req(t, b, c, d, 2)) || total_mda::<T>(),
    ensures
        exact_mda::<T>() ==> r == in_pow_spec(t, b, c, d, 2),
{
    in_pow(t, b, c, d, 2)
}

/// Cubic ease-in: `c * x^3 + b` with `x = t / d`.
pub fn in_cubic<T>(t: T, b: T, c: T, d: T) -> (r: T) where
    T: Mul<Output = T> + Div<Output = T> + Add<Output = T> + Copy,
    requires
        (exact_mda::<T>() && in_pow_req(t, b, c, d, 3)) || total_mda::<T>(),
    ensures
        exact_mda::<T>() ==> r == in_pow_spec(t, b, c, d, 3),
{
    in_pow(t, b, c, d, 3)
}

/// Quartic ease-in: `c * x^4 + b` with `x = t / d`.
pub fn in_quart<T>(t: T, b: T, c: T, d: T) -> (r: T) where
    T: Mul<Output = T> + Div<Output = T> + Add<Output = T> + Copy,
    requires
        (exact_mda::<T>() && in_pow_req(t, b, c, d, 4)) || total_mda::<T>(),
    ensures
        exact_mda::<T>() ==> r == in_pow_spec(t, b, c, d, 4),
{
    in_pow(t, b, c, d, 4)
}

/// Quintic ease-in: `c * x^5 + b` with `x = t / d`.
pub fn in_quint<T>(t: T, b: T, c: T, d: T) -> (r: T) where
    T: Mul<Output = T> + Div<Output = T> + Add<Output = T> + Copy,
    requires
        (exact_mda::<T>() && in_pow_req(t, b, c, d, 5)) || total_mda::<T>(),
    ensures
        exact_mda::<T>() ==> r == in_pow_spec(t, b, c, d, 5),
{
    in_pow(t, b, c, d, 5)
}

} // verus!

verus! {

// ---------------------------------------------------------------- "out" curves

/// `-c * x * (x - 2) + b` with `x = t / d`.
pub open spec fn out_quad_spec<T>(t: T, b: T, c: T, d: T) -> T where
    T: Mul<Output = T> + Div<Output = T> + Add<Output = T> + Sub<Output = T> + Neg<Output = T>
        + From<i8>,
 {
    let x = t.div_spec(d);
    c.neg_spec().mul_spec(x).mul_spec(x.sub_spec(two())).add_spec(b)
}

/// Each operation of `out_quad_spec(t, b, c, d)` is within `T`'s own domain.
pub open spec fn out_quad_req<T>(t: T, b: T, c: T, d: T) -> bool where
    T: Mul<Output = T> + Div<Output = T> + Add<Output = T> + Sub<Output = T> + Neg<Output = T>
        + From<i8>,
 {
    let x = t.div_spec(d);
    &&& t.div_req(d)
    &&& c.neg_req()
    &&& c.neg_spec().mul_req(x)
    &&& x.sub_req(two())
    &&& c.neg_spec().mul_spec(x).mul_req(x.sub_spec(two()))
    &&& c.neg_spec().mul_spec(x).mul_spec(x.sub_spec(two())).add_req(b)
}

/// Quadratic ease-out: `-c * x * (x - 2) + b` with `x = t / d`.
pub fn out_quad<T>(t: T, b: T, c: T, d: T) -> (r: T) where
    T: Mul<Output = T> + Div<Output = T> + Add<Output = T> + Sub<Output = T> + Neg<Output = T>
        + From<i8> + Copy,
    requires
        (exact_signed::<T>() && out_quad_req(t, b, c, d)) || total_signed::<T>(),
    ensures
        exact_signed::<T>() ==> r == out_quad_spec(t, b, c, d),
{
    let two = T::from(2i8);
    let x = t / d;
    c.neg() * x * (x - two) + b
}

/// `c * (x^n + 1) + b` with `x = t / d - 1`.
pub open spec fn out_odd_spec<T>(t: T, b: T, c: T, d: T, n: nat) -> T where
    T: Mul<Output = T> + Div<Output = T> + Add<Output = T> + Sub<Output = T> + From<i8>,
 {
    let x = t.div_spec(d).sub_spec(one());
    c.mul_spec(mul_pow(x, x, (n - 1) as nat).add_spec(one())).add_spec(b)
}

/// Each operation of `out_odd_spec(t, b, c, d, n)` is within `T`'s own domain.
pub open spec fn out_odd_req<T>(t: T, b: T, c: T, d: T, n: nat) -> bool where
    T: Mul<Output = T> + Div<Output = T> + Add<Output = T> + Sub<Output = T> + From<i8>,
 {
    let x = t.div_spec(d).sub_spec(one());
    let p = mul_pow(x, x, (n - 1) as nat);
    &&& t.div_req(d)
    &&& t.div_spec(d).sub_req(one())
    &&& mul_pow_req(x, x, (n - 1) as nat)
    &&& p.add_req(one())
    &&& c.mul_req(p.add_spec(one()))
    &&& c.mul_spec(p.add_spec(one())).add_req(b)
}

fn out_odd<T>(t: T, b: T, c: T, d: T, n: u32) -> (r: T) where
    T: Mul<Output = T> + Div<Output = T> + Add<Output = T> + Sub<Output = T> + From<i8> + Copy,
    requires
        n >= 1,
        (exact_shift::<T>() && out_odd_req(t, b, c, d, n as nat)) || total_shift::<T>(),
    ensures
        exact_shift::<T>() ==> r == out_odd_spec(t, b, c, d, n as nat),
{
    let one = T::from(1i8);
    let x = t / d - one;
    c * (scale_pow(x, x, n - 1) + one) + b
}

/// Cubic ease-out: `c * (x^3 + 1) + b` with `x = t / d - 1`.
pub fn out_cubic<T>(t: T, b: T, c: T, d: T) -> (r: T) where
    T: Mul<Output = T> + Div<Output = T> + Add<Output = T> + Sub<Output = T> + From<i8> + Copy,
    requires
        (exact_shift::<T>() && out_odd_req(t, b, c, d, 3)) || total_shift::<T>(),
    ensures
        exact_shift::<T>() ==> r == out_odd_spec(t, b, c, d, 3),
{
    out_odd(t, b, c, d, 3)
}

/// Quintic ease-out: `c * (x^5 + 1) + b` with `x = t / d - 1`.
pub fn out_quint<T>(t: T, b: T, c: T, d: T) -> (r: T) where
    T: Mul<Output = T> + Div<Output = T> + Add<Output = T> + Sub<Output = T> + From<i8> + Copy,
    requires
        (exact_shift::<T>() && out_odd_req(t, b, c, d, 5)) || total_shift::<T>(),
    ensures
        exact_shift::<T>() ==> r == out_odd_spec(t, b, c, d, 5),
{
    out_odd(t, b, c, d, 5)
}

/// `-c * (x^4 - 1) + b` with `x = t / d - 1`.
pub open spec fn out_quart_spec<T>(t: T, b: T, c: T, d: T) -> T where
    T: Mul<Output = T> + Div<Output = T> + Add<Output = T> + Sub<Output = T> + Neg<Output = T>
        + From<i8>,
 {
    let x = t.div_spec(d).sub_spec(one());
    c.neg_spec().mul_spec(mul_pow(x, x, 3).sub_spec(one())).add_spec(b)
}

/// Each operation of `out_quart_spec(t, b, c, d)` is within `T`'s own domain.
pub open spec fn out_quart_req<T>(t: T, b: T, c: T, d: T) -> bool where
    T: Mul<Output = T> + Div<Output = T> + Add<Output = T> + Sub<Output = T> + Neg<Output = T>
        + From<i8>,
 {
    let x = t.div_spec(d).sub_spec(one());
    let p = mul_pow(x, x, 3);
    &&& t.div_req(d)
    &&& t.div_spec(d).sub_req(one())
    &&& mul_pow_req(x, x, 3)
    &&& p.sub_req(one())
    &&& c.neg_req()
    &&& c.neg_spec().mul_req(p.sub_spec(one()))
    &&& c.neg_spec().mul_spec(p.sub_spec(one())).add_req(b)
}

/// Quartic ease-out: `-c * (x^4 - 1) + b` with `x = t / d - 1`.
pub fn out_quart<T>(t: T, b: T, c: T, d: T) -> (r: T) where
    T: Mul<Output = T> + Div<Output = T> + Add<Output = T> + Sub<Output = T> + Neg<Output = T>
        + From<i8> + Copy,
    requires
        (exact_signed::<T>() && out_quart_req(t, b, c, d)) || total_signed::<T>(),
    ensures
        exact_signed::<T>() ==> r == out_quart_spec(t, b, c, d),
{
    let one = T::from(1i8);
    let x = t / d - one;
    c.neg() * (scale_pow(x, x, 3) - one) + b
}

} // verus!

verus! {

// ---------------------------------------------------------------- "in-out" curves
//
// `x = t / (d / 2)`. Below one the first half runs on `x`; from one on, the
// second half runs on `x` shifted: by one for the quadratic curve, by two for
// the others, as each second-half formula is written.

/// `x < 1` in `T`'s own ordering.
pub open spec fn below_one<T>(x: T) -> bool where T: PartialOrd + From<i8> {
    x.partial_cmp_spec(&one()) == Some(Ordering::Less)
}

/// The first half: `c / 2 * x^n + b`.
pub open spec fn first_half_spec<T>(x: T, b: T, c: T, n: nat) -> T where
    T: Mul<Output = T> + Div<Output = T> + Add<Output = T> + From<i8>,
 {
    mul_pow(c.div_spec(two()), x, n).add_spec(b)
}

/// Each operation of `first_half_spec(x, b, c, n)` is within `T`'s own domain.
pub open spec fn first_half_req<T>(x: T, b: T, c: T, n: nat) -> bool where
    T: Mul<Output = T> + Div<Output = T> + Add<Output = T> + From<i8>,
 {
    &&& c.div_req(two())
    &&& mul_pow_req(c.div_spec(two()), x, n)
    &&& mul_pow(c.div_spec(two()), x, n).add_req(b)
}

fn first_half<T>(x: T, b: T, c: T, n: u32) -> (r: T) where
    T: Mul<Output = T> + Div<Output = T> + Add<Output = T> + From<i8> + Copy,
    requires
        (exact_mda::<T>() && T::obeys_from_spec() && first_half_req(x, b, c, n as nat))
            || total_mda::<T>(),
    ensures
        exact_mda::<T>() && T::obeys_from_spec() ==> r == first_half_spec(x, b, c, n as nat),
{
    let two = T::from(2i8);
    scale_pow(c / two, x, n) + b
}

/// `x` normalized by half the duration: `t / (d / 2)`.
pub open spec fn half_progress<T>(t: T, d: T) -> T where T: Div<Output = T> + From<i8> {
    t.div_spec(d.div_spec(two()))
}

/// Each operation of `half_progress(t, d)` is within `T`'s own domain.
pub open spec fn half_progress_req<T>(t: T, d: T) -> bool where T: Div<Output = T> + From<i8> {
    d.div_req(two()) && t.div_req(d.div_spec(two()))
}

/// The quadratic second half: `-c / 2 * (y * (y - 2) - 1) + b` with `y = x - 1`.
pub open spec fn quad_second_half_spec<T>(x: T, b: T, c: T) -> T where
    T: Mul<Output = T> + Div<Output = T> + Add<Output = T> + Sub<Output = T> + Neg<Output = T>
        + From<i8>,
 {
    let y = x.sub_spec(one());
    let p = y.mul_spec(y.sub_spec(two())).sub_spec(one());
    c.neg_spec().div_spec(two()).mul_spec(p).add_spec(b)
}

/// Each operation of `quad_second_half_spec(x, b, c)` is within `T`'s own domain.
pub open spec fn quad_second_half_req<T>(x: T, b: T, c: T) -> bool where
    T: Mul<Output = T> + Div<Output = T> + Add<Output = T> + Sub<Output = T> + Neg<Output = T>
        + From<i8>,
 {
    let y = x.sub_spec(one());
    let p = y.mul_spec(y.sub_spec(two())).sub_spec(one());
    &&& x.sub_req(one())
    &&& y.sub_req(two())
    &&& y.mul_req(y.sub_spec(two()))
    &&& y.mul_spec(y.sub_spec(two())).sub_req(one())
    &&& c.neg_req()
    &&& c.neg_spec().div_req(two())
    &&& c.neg_spec().div_spec(two()).mul_req(p)
    &&& c.neg_spec().div_spec(two()).mul_spec(p).add_req(b)
}

/// The quadratic in-out curve, in `T`'s own operations.
pub open spec fn in_out_quad_spec<T>(t: T, b: T, c: T, d: T) -> T where
    T: Mul<Output = T> + Div<Output = T> + Add<Output = T> + Sub<Output = T> + Neg<Output = T>
        + From<i8> + PartialOrd,
 {
    let x = half_progress(t, d);
    if below_one(x) {
        first_half_spec(x, b, c, 2)
    } else {
        quad_second_half_spec(x, b, c)
    }
}

/// Each operation of `in_out_quad_spec(t, b, c, d)` is within `T`'s own domain.
pub open spec fn in_out_quad_req<T>(t: T, b: T, c: T, d: T) -> bool where
    T: Mul<Output = T> + Div<Output = T> + Add<Output = T> + Sub<Output = T> + Neg<Output = T>
        + From<i8> + PartialOrd,
 {
    let x = half_progress(t, d);
    &&& half_progress_req(t, d)
    &&& if below_one(x) {
        first_half_req(x, b, c, 2)
    } else {
        quad_second_half_req(x, b, c)
    }
}

/// Quadratic ease-in-out: with `x = t / (d / 2)`, `c / 2 * x * x + b` below
/// one, else `-c / 2 * (y * (y - 2) - 1) + b` with `y = x - 1`.
pub fn in_out_quad<T>(t: T, b: T, c: T, d: T) -> (r: T) where
    T: Mul<Output = T> + Div<Output = T> + Add<Output = T> + Sub<Output = T> + Neg<Output = T>
        + From<i8> + PartialOrd + Copy,
    requires
        (exact_signed::<T>() && exact_ord::<T>() && in_out_quad_req(t, b, c, d))
            || total_signed::<T>(),
    ensures
        exact_signed::<T>() && exact_ord::<T>() ==> r == in_out_quad_spec(t, b, c, d),
{
    let one = T::from(1i8);
    let two = T::from(2i8);
    let x = t / (d / two);
    if x < one {
        return first_half(x, b, c, 2);
    }
    let y = x - one;
    c.neg() / two * (y * (y - two) - one) + b
}

/// The odd second half: `c / 2 * (y^n + 2) + b` with `y = x - 2`.
pub open spec fn odd_second_half_spec<T>(x: T, b: T, c: T, n: nat) -> T where
    T: Mul<Output = T> + Div<Output = T> + Add<Output = T> + Sub<Output = T> + From<i8>,
 {
    let y = x.sub_spec(two());
    c.div_spec(two()).mul_spec(mul_pow(y, y, (n - 1) as nat).add_spec(two())).add_spec(b)
}

/// Each operation of `odd_second_half_spec(x, b, c, n)` is within `T`'s own domain.
pub open spec fn odd_second_half_req<T>(x: T, b: T, c: T, n: nat) -> bool where
    T: Mul<Output = T> + Div<Output = T> + Add<Output = T> + Sub<Output = T> + From<i8>,
 {
    let y = x.sub_spec(two());
    let p = mul_pow(y, y, (n - 1) as nat).add_spec(two());
    &&& x.sub_req(two())
    &&& mul_pow_req(y, y, (n - 1) as nat)
    &&& mul_pow(y, y, (n - 1) as nat).add_req(two())
    &&& c.div_req(two())
    &&& c.div_spec(two()).mul_req(p)
    &&& c.div_spec(two()).mul_spec(p).add_req(b)
}

/// The cubic or quintic in-out curve (`n` odd), in `T`'s own operations.
pub open spec fn in_out_odd_spec<T>(t: T, b: T, c: T, d: T, n: nat) -> T where
    T: Mul<Output = T> + Div<Output = T> + Add<Output = T> + Sub<Output = T> + From<i8>
        + PartialOrd,
 {
    let x = half_progress(t, d);
    if below_one(x) {
        first_half_spec(x, b, c, n)
    } else {
        odd_second_half_spec(x, b, c, n)
    }
}

/// Each operation of `in_out_odd_spec(t, b, c, d, n)` is within `T`'s own domain.
pub open spec fn in_out_odd_req<T>(t: T, b: T, c: T, d: T, n: nat) -> bool where
    T: Mul<Output = T> + Div<Output = T> + Add<Output = T> + Sub<Output = T> + From<i8>
        + PartialOrd,
 {
    let x = half_progress(t, d);
    &&& half_progress_req(t, d)
    &&& if below_one(x) {
        first_half_req(x, b, c, n)
    } else {
        odd_second_half_req(x, b, c, n)
    }
}

fn in_out_odd<T>(t: T, b: T, c: T, d: T, n: u32) -> (r: T) where
    T: Mul<Output = T> + Div<Output = T> + Add<Output = T> + Sub<Output = T> + From<i8>
        + PartialOrd + Copy,
    requires
        n >= 1,
        (exact_shift::<T>() && exact_ord::<T>() && in_out_odd_req(t, b, c, d, n as nat))
            || total_shift::<T>(),
    ensures
        exact_shift::<T>() && exact_ord::<T>() ==> r == in_out_odd_spec(t, b, c, d, n as nat),
{
    let one = T::from(1i8);
    let two = T::from(2i8);
    let x = t / (d / two);
    if x < one {
        return first_half(x, b, c, n);
    }
    let y = x - two;
    c / two * (scale_pow(y, y, n - 1) + two) + b
}

/// Cubic ease-in-out: with `x = t / (d / 2)`, `c / 2 * x^3 + b` below one,
/// else `c / 2 * (y^3 + 2) + b` with `y = x - 2`.
pub fn in_out_cubic<T>(t: T, b: T, c: T, d: T) -> (r: T) where
    T: Mul<Output = T> + Div<Output = T> + Add<Output = T> + Sub<Output = T> + From<i8>
        + PartialOrd + Copy,
    requires
        (exact_shift::<T>() && exact_ord::<T>() && in_out_odd_req(t, b, c, d, 3))
            || total_shift::<T>(),
    ensures
        exact_shift::<T>() && exact_ord::<T>() ==> r == in_out_odd_spec(t, b, c, d, 3),
{
    in_out_odd(t, b, c, d, 3)
}

/// Quintic ease-in-out: with `x = t / (d / 2)`, `c / 2 * x^5 + b` below one,
/// else `c / 2 * (y^5 + 2) + b` with `y = x - 2`.
pub fn in_out_quint<T>(t: T, b: T, c: T, d: T) -> (r: T) where
    T: Mul<Output = T> + Div<Output = T> + Add<Output = T> + Sub<Output = T> + From<i8>
        + PartialOrd + Copy,
    requires
        (exact_shift::<T>() && exact_ord::<T>() && in_out_odd_req(t, b, c, d, 5))
            || total_shift::<T>(),
    ensures
        exact_shift::<T>() && exact_ord::<T>() ==> r == in_out_odd_spec(t, b, c, d, 5),
{
    in_out_odd(t, b, c, d, 5)
}

/// The quartic second half: `-c / 2 * (y^4 - 2) + b` with `y = x - 2`.
pub open spec fn quart_second_half_spec<T>(x: T, b: T, c: T) -> T where
    T: Mul<Output = T> + Div<Output = T> + Add<Output = T> + Sub<Output = T> + Neg<Output = T>
        + From<i8>,
 {
    let y = x.sub_spec(two());
    c.neg_spec().div_spec(two()).mul_spec(mul_pow(y, y, 3).sub_spec(two())).add_spec(b)
}

/// Each operation of `quart_second_half_spec(x, b, c)` is within `T`'s own domain.
pub open spec fn quart_second_half_req<T>(x: T, b: T, c: T) -> bool where
    T: Mul<Output = T> + Div<Output = T> + Add<Output = T> + Sub<Output = T> + Neg<Output = T>
        + From<i8>,
 {
    let y = x.sub_spec(two());
    let p = mul_pow(y, y, 3).sub_spec(two());
    &&& x.sub_req(two())
    &&& mul_pow_req(y, y, 3)
    &&& mul_pow(y, y, 3).sub_req(two())
    &&& c.neg_req()
    &&& c.neg_spec().div_req(two())
    &&& c.neg_spec().div_spec(two()).mul_req(p)
    &&& c.neg_spec().div_spec(two()).mul_spec(p).add_req(b)
}

/// The quartic in-out curve, in `T`'s own operations.
pub open spec fn in_out_quart_spec<T>(t: T, b: T, c: T, d: T) -> T where
    T: Mul<Output = T> + Div<Output = T> + Add<Output = T> + Sub<Output = T> + Neg<Output = T>
        + From<i8> + PartialOrd,
 {
    let x = half_progress(t, d);
    if below_one(x) {
        first_half_spec(x, b, c, 4)
    } else {
        quart_second_half_spec(x, b, c)
    }
}

/// Each operation of `in_out_quart_spec(t, b, c, d)` is within `T`'s own domain.
pub open spec fn in_out_quart_req<T>(t: T, b: T, c: T, d: T) -> bool where
    T: Mul<Output = T> + Div<Output = T> + Add<Output = T> + Sub<Output = T> + Neg<Output = T>
        + From<i8> + PartialOrd,
 {
    let x = half_progress(t, d);
    &&& half_progress_req(t, d)
    &&& if below_one(x) {
        first_half_req(x, b, c, 4)
    } else {
        quart_second_half_req(x, b, c)
    }
}

/// Quartic ease-in-out: with `x = t / (d / 2)`, `c / 2 * x^4 + b` below one,
/// else `-c / 2 * (y^4 - 2) + b` with `y = x - 2`.
pub fn in_out_quart<T>(t: T, b: T, c: T, d: T) -> (r: T) where
    T: Mul<Output = T> + Div<Output = T> + Add<Output = T> + Sub<Output = T> + Neg<Output = T>
        + From<i8> + PartialOrd + Copy,
    requires
        (exact_signed::<T>() && exact_ord::<T>() && in_out_quart_req(t, b, c, d))
            || total_signed::<T>(),
    ensures
        exact_signed::<T>() && exact_ord::<T>() ==> r == in_out_quart_spec(t, b, c, d),
{
    let one = T::from(1i8);
    let two = T::from(2i8);
    let x = t / (d / two);
    if x < one {
        return first_half(x, b, c, 4);
    }
    let y = x - two;
    c.neg() / two * (scale_pow(y, y, 3) - two) + b
}

} // verus!
