//! What the curves need of a numeric type `T`, stated over vstd's
//! specifications of std's operator traits.
use core::ops::{Add, Div, Mul, Neg, Sub};
use vstd::prelude::*;
use vstd::std_specs::cmp::PartialOrdSpec;
use vstd::std_specs::convert::FromSpec;
use vstd::std_specs::ops::{AddSpec, DivSpec, MulSpec, NegSpec, SubSpec};

verus! {

/// `T`'s `*`, `/` and `+` follow their standard specification
/// (true of every primitive integer type).
pub open spec fn exact_mda<T>() -> bool where
    T: Mul<Output = T> + Div<Output = T> + Add<Output = T>,
 {
    &&& T::obeys_mul_spec()
    &&& T::obeys_div_spec()
    &&& T::obeys_add_spec()
}

/// `T`'s `*` is defined on every pair of values.
pub open spec fn total_mul<T>() -> bool where T: Mul<Output = T> {
    forall|x: T, y: T| #[trigger] x.mul_req(y)
}

/// `T`'s `*`, `/` and `+` are defined on every pair of values.
pub open spec fn total_mda<T>() -> bool where
    T: Mul<Output = T> + Div<Output = T> + Add<Output = T>,
 {
    &&& total_mul::<T>()
    &&& forall|x: T, y: T| #[trigger] x.div_req(y)
    &&& forall|x: T, y: T| #[trigger] x.add_req(y)
}

/// `T`'s `-` and its constants made from `i8` follow their standard specification.
pub open spec fn exact_sub<T>() -> bool where T: Sub<Output = T> + From<i8> {
    &&& T::obeys_sub_spec()
    &&& T::obeys_from_spec()
}

/// `T`'s `-` is defined on every pair of values.
pub open spec fn total_sub<T>() -> bool where T: Sub<Output = T> {
    forall|x: T, y: T| #[trigger] x.sub_req(y)
}

/// `T`'s unary `-` is defined on every value.
pub open spec fn total_neg<T>() -> bool where T: Neg<Output = T> {
    forall|x: T| #[trigger] x.neg_req()
}

/// `exact_mda` and `exact_sub` together.
pub open spec fn exact_shift<T>() -> bool where
    T: Mul<Output = T> + Div<Output = T> + Add<Output = T> + Sub<Output = T> + From<i8>,
 {
    exact_mda::<T>() && exact_sub::<T>()
}

/// `total_mda` and `total_sub` together.
pub open spec fn total_shift<T>() -> bool where
    T: Mul<Output = T> + Div<Output = T> + Add<Output = T> + Sub<Output = T>,
 {
    total_mda::<T>() && total_sub::<T>()
}

/// `exact_shift`, and `T`'s unary `-` follows its standard specification.
pub open spec fn exact_signed<T>() -> bool where
    T: Mul<Output = T> + Div<Output = T> + Add<Output = T> + Sub<Output = T> + Neg<Output = T>
        + From<i8>,
 {
    exact_shift::<T>() && T::obeys_neg_spec()
}

/// `total_shift` and `total_neg` together.
pub open spec fn total_signed<T>() -> bool where
    T: Mul<Output = T> + Div<Output = T> + Add<Output = T> + Sub<Output = T> + Neg<Output = T>,
 {
    total_shift::<T>() && total_neg::<T>()
}

/// `T`'s ordering follows its standard specification.
pub open spec fn exact_ord<T>() -> bool where T: PartialOrd {
    T::obeys_partial_cmp_spec()
}

/// The constant one of `T`.
pub open spec fn one<T: From<i8>>() -> T {
    T::from_spec(1i8)
}

/// The constant two of `T`.
pub open spec fn two<T: From<i8>>() -> T {
    T::from_spec(2i8)
}

/// `c * x * ... * x` with `n` factors `x`, multiplied from the left.
pub open spec fn mul_pow<T>(c: T, x: T, n: nat) -> T where T: Mul<Output = T>
    decreases n,
{
    if n == 0 {
        c
    } else {
        mul_pow(c, x, (n - 1) as nat).mul_spec(x)
    }
}

/// Every product that `mul_pow(c, x, n)` takes is within `T`'s `*`.
pub open spec fn mul_pow_req<T>(c: T, x: T, n: nat) -> bool where T: Mul<Output = T>
    decreases n,
{
    n == 0 || (mul_pow_req(c, x, (n - 1) as nat) && mul_pow(c, x, (n - 1) as nat).mul_req(x))
}

proof fn lemma_mul_pow_req_prefix<T>(c: T, x: T, i: nat, n: nat) where T: Mul<Output = T>
    requires
        i <= n,
        mul_pow_req(c, x, n),
    ensures
        mul_pow_req(c, x, i),
    decreases n - i,
{
    if i < n {
        lemma_mul_pow_req_prefix(c, x, (i + 1) as nat, n);
    }
}

/// `c * x * ... * x` with `n` factors `x`, in `T`'s own `*`.
pub(crate) fn scale_pow<T>(c: T, x: T, n: u32) -> (r: T) where T: Mul<Output = T> + Copy
    requires
        (T::obeys_mul_spec() && mul_pow_req(c, x, n as nat)) || total_mul::<T>(),
    ensures
        T::obeys_mul_spec() ==> r == mul_pow(c, x, n as nat),
{
    let mut acc = c;
    let mut i: u32 = 0;
    while i < n
        invariant
            i <= n,
            T::obeys_mul_spec() ==> acc == mul_pow(c, x, i as nat),
            (T::obeys_mul_spec() && mul_pow_req(c, x, n as nat)) || total_mul::<T>(),
        decreases n - i,
    {
        proof {
            if T::obeys_mul_spec() && mul_pow_req(c, x, n as nat) {
                lemma_mul_pow_req_prefix(c, x, (i + 1) as nat, n as nat);
            }
        }
        acc = acc * x;
        i = i + 1;
    }
    acc
}

} // verus!
