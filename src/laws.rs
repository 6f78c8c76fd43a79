//! Laws of the curves, proved for `i64`, whose operations follow their
//! standard specification: truncating division, and no overflow wherever a
//! curve's own precondition holds.
use vstd::arithmetic::power::pow;
use vstd::prelude::*;

use vstd::std_specs::ops::{AddSpec, DivSpec, MulSpec, NegSpec, SubSpec};

use crate::curves::{
    first_half_req, first_half_spec, odd_second_half_req, odd_second_half_spec,
    quad_second_half_req, quad_second_half_spec, quart_second_half_req, quart_second_half_spec,
    in_out_odd_req, in_out_odd_spec, in_out_quad_req, in_out_quad_spec, in_out_quart_req,
    in_out_quart_spec, in_pow_req, in_pow_spec, linear_tween_req, linear_tween_spec,
    out_odd_req, out_odd_spec, out_quad_req, out_quad_spec, out_quart_req, out_quart_spec,
};
use crate::numeric::{mul_pow, mul_pow_req, one, two};

verus! {

proof fn lemma_mul_pow_one(c: i64, n: nat)
    ensures
        mul_pow(c, 1i64, n) == c,
        mul_pow_req(c, 1i64, n),
    decreases n,
{
    if n > 0 {
        lemma_mul_pow_one(c, (n - 1) as nat);
    }
}

proof fn lemma_mul_pow_zero(c: i64, n: nat)
    requires
        n >= 1,
    ensures
        mul_pow(c, 0i64, n) == 0,
        mul_pow_req(c, 0i64, n),
    decreases n,
{
    reveal_with_fuel(mul_pow_req, 2);
    if n > 1 {
        lemma_mul_pow_zero(c, (n - 1) as nat);
    }
}

proof fn lemma_mul_pow_minus_one(n: nat)
    ensures
        mul_pow(-1i64, -1i64, n) == (if n % 2 == 0 { -1i64 } else { 1i64 }),
        mul_pow_req(-1i64, -1i64, n),
    decreases n,
{
    if n > 0 {
        lemma_mul_pow_minus_one((n - 1) as nat);
    }
}

/// Every curve starts at `b`: at `t = 0` each is defined and returns `b`
/// (the in-out curves wherever `d / 2` is not zero: `|d| >= 2`; the two
/// curves that negate `c` wherever `-c` fits).
pub proof fn lemma_start_value(b: i64, c: i64, d: i64)
    requires
        d != 0,
    ensures
        linear_tween_req(0i64, b, c, d) && linear_tween_spec(0i64, b, c, d) == b,
        in_pow_req(0i64, b, c, d, 2) && in_pow_spec(0i64, b, c, d, 2) == b,
        in_pow_req(0i64, b, c, d, 3) && in_pow_spec(0i64, b, c, d, 3) == b,
        in_pow_req(0i64, b, c, d, 4) && in_pow_spec(0i64, b, c, d, 4) == b,
        in_pow_req(0i64, b, c, d, 5) && in_pow_spec(0i64, b, c, d, 5) == b,
        c != i64::MIN ==> out_quad_req(0i64, b, c, d) && out_quad_spec(0i64, b, c, d) == b,
        out_odd_req(0i64, b, c, d, 3) && out_odd_spec(0i64, b, c, d, 3) == b,
        c != i64::MIN ==> out_quart_req(0i64, b, c, d) && out_quart_spec(0i64, b, c, d) == b,
        out_odd_req(0i64, b, c, d, 5) && out_odd_spec(0i64, b, c, d, 5) == b,
        (d <= -2 || d >= 2) ==> in_out_quad_req(0i64, b, c, d) && in_out_quad_spec(0i64, b, c, d) == b,
        (d <= -2 || d >= 2) ==> in_out_odd_req(0i64, b, c, d, 3) && in_out_odd_spec(0i64, b, c, d, 3)
            == b,
        (d <= -2 || d >= 2) ==> in_out_quart_req(0i64, b, c, d) && in_out_quart_spec(0i64, b, c, d) == b,
        (d <= -2 || d >= 2) ==> in_out_odd_req(0i64, b, c, d, 5) && in_out_odd_spec(0i64, b, c, d, 5)
            == b,
{
    assert(0int / (d as int) == 0) by (nonlinear_arith)
        requires
            d != 0,
    ;
    if c != i64::MIN {
        assert((-c) * 0int == 0);
        assert(0i64.div_spec(d) == 0);
        assert(0i64.sub_spec(two::<i64>()) == -2);
    }
    lemma_mul_pow_zero(c, 2);
    lemma_mul_pow_zero(c, 3);
    lemma_mul_pow_zero(c, 4);
    lemma_mul_pow_zero(c, 5);
    lemma_mul_pow_minus_one(2);
    lemma_mul_pow_minus_one(3);
    lemma_mul_pow_minus_one(4);
    let h = d.div_spec(2i64);
    if d <= -2 || d >= 2 {
        assert(0int / (h as int) == 0) by (nonlinear_arith)
            requires
                h != 0,
        ;
        lemma_mul_pow_zero(c.div_spec(2i64), 2);
        lemma_mul_pow_zero(c.div_spec(2i64), 3);
        lemma_mul_pow_zero(c.div_spec(2i64), 4);
        lemma_mul_pow_zero(c.div_spec(2i64), 5);
    }
}

} // verus!

verus! {

/// `i64`'s `/` on an exact multiple: `(q * d) / d == q`.
proof fn lemma_div_exact(q: i64, d: i64)
    requires
        d != 0,
        i64::MIN <= q * d <= i64::MAX,
    ensures
        ((q * d) as i64).div_req(d),
        ((q * d) as i64).div_spec(d) == q,
{
    let a = q * d;
    assert(a / (d as int) == q) by (nonlinear_arith)
        requires
            a == q * d,
            d != 0,
    ;
    assert((-a) / (d as int) == -q) by (nonlinear_arith)
        requires
            a == q * d,
            d != 0,
    ;
    if d == -1 {
        assert(a == -q) by (nonlinear_arith)
            requires
                a == q * d,
                d == -1,
        ;
    }
}

proof fn lemma_in_out_end_value(b: i64, c: i64, d: i64)
    requires
        d != 0,
        d % 2 == 0,
        c % 2 == 0,
    ensures
        in_out_quad_req(d, b, c, d) ==> in_out_quad_spec(d, b, c, d) == b + c,
        in_out_odd_req(d, b, c, d, 3) ==> in_out_odd_spec(d, b, c, d, 3) == b + c,
        in_out_quart_req(d, b, c, d) ==> in_out_quart_spec(d, b, c, d) == b + c,
        in_out_odd_req(d, b, c, d, 5) ==> in_out_odd_spec(d, b, c, d, 5) == b + c,
{
    lemma_mul_pow_zero(0, 2);
    lemma_mul_pow_zero(0, 3);
    lemma_mul_pow_zero(0, 4);
    let h = d / 2;
    assert(h != 0 && h * 2 == d);
    lemma_div_exact(h as i64, 2);
    assert(d.div_spec(2i64) == h);
    lemma_div_exact(2, h as i64);
    assert(d.div_spec(h as i64) == 2);
    let k = c / 2;
    lemma_div_exact(k as i64, 2);
    assert(c.div_spec(2i64) == k);
    assert(2i64.sub_spec(two::<i64>()) == 0);
    assert(2i64.sub_spec(one::<i64>()) == 1);
    assert(1i64.mul_spec(1i64.sub_spec(two::<i64>())) == -1);
    assert((-1i64).sub_spec(one::<i64>()) == -2);
    assert(0i64.sub_spec(two::<i64>()) == -2);
    assert((k as i64).mul_spec(0i64.add_spec(two::<i64>())) == c);
    if c != i64::MIN {
        lemma_div_exact(-k as i64, 2);
        assert(c.neg_spec().div_spec(2i64) == -k);
        assert((-k as i64).mul_spec(-2i64) == c);
    }
}

/// Every curve ends at `b + c`: at `t = d` each curve that is defined
/// returns `b + c`; for the in-out curves, where `d / 2` and `c / 2` are exact.
pub proof fn lemma_end_value(b: i64, c: i64, d: i64)
    requires
        d != 0,
    ensures
        linear_tween_req(d, b, c, d) ==> linear_tween_spec(d, b, c, d) == b + c,
        in_pow_req(d, b, c, d, 2) ==> in_pow_spec(d, b, c, d, 2) == b + c,
        in_pow_req(d, b, c, d, 3) ==> in_pow_spec(d, b, c, d, 3) == b + c,
        in_pow_req(d, b, c, d, 4) ==> in_pow_spec(d, b, c, d, 4) == b + c,
        in_pow_req(d, b, c, d, 5) ==> in_pow_spec(d, b, c, d, 5) == b + c,
        out_quad_req(d, b, c, d) ==> out_quad_spec(d, b, c, d) == b + c,
        out_odd_req(d, b, c, d, 3) ==> out_odd_spec(d, b, c, d, 3) == b + c,
        out_quart_req(d, b, c, d) ==> out_quart_spec(d, b, c, d) == b + c,
        out_odd_req(d, b, c, d, 5) ==> out_odd_spec(d, b, c, d, 5) == b + c,
        d % 2 == 0 && c % 2 == 0 && in_out_quad_req(d, b, c, d) ==> in_out_quad_spec(d, b, c, d)
            == b + c,
        d % 2 == 0 && c % 2 == 0 && in_out_odd_req(d, b, c, d, 3) ==> in_out_odd_spec(
            d,
            b,
            c,
            d,
            3,
        ) == b + c,
        d % 2 == 0 && c % 2 == 0 && in_out_quart_req(d, b, c, d) ==> in_out_quart_spec(
            d,
            b,
            c,
            d,
        ) == b + c,
        d % 2 == 0 && c % 2 == 0 && in_out_odd_req(d, b, c, d, 5) ==> in_out_odd_spec(
            d,
            b,
            c,
            d,
            5,
        ) == b + c,
{
    lemma_div_exact(1, d);
    assert(d.div_spec(d) == 1);
    lemma_mul_pow_one(c, 2);
    lemma_mul_pow_one(c, 3);
    lemma_mul_pow_one(c, 4);
    lemma_mul_pow_one(c, 5);
    lemma_mul_pow_zero(0, 2);
    lemma_mul_pow_zero(0, 3);
    lemma_mul_pow_zero(0, 4);
    if linear_tween_req(d, b, c, d) {
        lemma_div_exact(c, d);
    }
    if c != i64::MIN {
        assert(c.neg_spec().mul_spec(1i64) == -c);
        assert(1i64.sub_spec(two::<i64>()) == -1);
        assert((-c as i64).mul_spec(-1i64) == c);
        assert(0i64.sub_spec(1i64) == -1);
    }
    if d % 2 == 0 && c % 2 == 0 {
        lemma_in_out_end_value(b, c, d);
    }
}

/// The two halves of each in-out curve meet at `x = 1`: the first half and
/// the second half, with its own shift, give the same value there.
pub proof fn lemma_midpoint_continuity(b: i64, c: i64)
    ensures
        first_half_req(1i64, b, c, 2) && quad_second_half_req(1i64, b, c) ==> first_half_spec(
            1i64,
            b,
            c,
            2,
        ) == quad_second_half_spec(1i64, b, c),
        first_half_req(1i64, b, c, 3) && odd_second_half_req(1i64, b, c, 3) ==> first_half_spec(
            1i64,
            b,
            c,
            3,
        ) == odd_second_half_spec(1i64, b, c, 3),
        first_half_req(1i64, b, c, 4) && quart_second_half_req(1i64, b, c) ==> first_half_spec(
            1i64,
            b,
            c,
            4,
        ) == quart_second_half_spec(1i64, b, c),
        first_half_req(1i64, b, c, 5) && odd_second_half_req(1i64, b, c, 5) ==> first_half_spec(
            1i64,
            b,
            c,
            5,
        ) == odd_second_half_spec(1i64, b, c, 5),
{
    let k = c.div_spec(2i64);
    lemma_mul_pow_one(k, 2);
    lemma_mul_pow_one(k, 3);
    lemma_mul_pow_one(k, 4);
    lemma_mul_pow_one(k, 5);
    lemma_mul_pow_minus_one(2);
    lemma_mul_pow_minus_one(3);
    lemma_mul_pow_minus_one(4);
    assert(1i64.sub_spec(two::<i64>()) == -1);
    assert(1i64.sub_spec(one::<i64>()) == 0);
    assert(0i64.mul_spec(0i64.sub_spec(two::<i64>())) == 0);
    assert(0i64.sub_spec(one::<i64>()) == -1);
    if c != i64::MIN {
        assert(c.neg_spec().div_spec(2i64) == -k);
        assert((-k as i64).mul_spec(-1i64) == k);
    }
}

/// Where no product overflows, `mul_pow` is `c * x^n` in exact arithmetic.
proof fn lemma_mul_pow_exact(c: i64, x: i64, n: nat)
    requires
        mul_pow_req(c, x, n),
    ensures
        mul_pow(c, x, n) == c * pow(x as int, n),
    decreases n,
{
    reveal(pow);
    if n > 0 {
        let m = (n - 1) as nat;
        lemma_mul_pow_exact(c, x, m);
        assert((c * pow(x as int, m)) * x == c * (x * pow(x as int, m))) by (nonlinear_arith);
    }
}

proof fn lemma_pow_small(k: int)
    ensures
        pow(k, 2) == k * k,
        pow(-k, 2) == k * k,
        pow(k, 3) == k * k * k,
        pow(-k, 3) == -(k * k * k),
        pow(k, 4) == k * k * k * k,
        pow(-k, 4) == k * k * k * k,
        pow(k, 5) == k * k * k * k * k,
        pow(-k, 5) == -(k * k * k * k * k),
{
    reveal_with_fuel(pow, 6);
    assert((-k) * (-k) == k * k) by (nonlinear_arith);
    assert((-k) * ((-k) * (-k)) == -(k * k * k)) by (nonlinear_arith);
    assert((-k) * ((-k) * ((-k) * (-k))) == k * k * k * k) by (nonlinear_arith);
    assert((-k) * ((-k) * ((-k) * ((-k) * (-k)))) == -(k * k * k * k * k)) by (nonlinear_arith);
    assert(k * (k * k) == k * k * k) by (nonlinear_arith);
    assert(k * (k * (k * k)) == k * k * k * k) by (nonlinear_arith);
    assert(k * (k * (k * (k * k))) == k * k * k * k * k) by (nonlinear_arith);
}

proof fn lemma_quotient_fits(k: int, d: int, t: int)
    requires
        d != 0,
        t == k * d,
        i64::MIN <= t <= i64::MAX,
        !(t == i64::MIN && d == -1),
    ensures
        i64::MIN <= k <= i64::MAX,
{
    if k >= 0 && d > 0 {
        assert(k * d >= k) by (nonlinear_arith)
            requires
                k >= 0,
                d >= 1,
        ;
    } else if k >= 0 {
        if d == -1 {
            assert(t == -k) by (nonlinear_arith)
                requires
                    t == k * d,
                    d == -1,
            ;
        } else {
            assert(k * d <= -2 * k) by (nonlinear_arith)
                requires
                    k >= 0,
                    d <= -2,
            ;
        }
    } else if d > 0 {
        assert(k * d <= k) by (nonlinear_arith)
            requires
                k < 0,
                d >= 1,
        ;
    } else {
        assert(k * d >= -k) by (nonlinear_arith)
            requires
                k < 0,
                d <= -1,
        ;
    }
}

/// `t / d == k` and `(d - t) / d == 1 - k` in `i64`, for `t == k * d`.
proof fn lemma_whole_durations(t: i64, d: i64) -> (k: int)
    requires
        d != 0,
        t % d == 0,
        i64::MIN <= d - t <= i64::MAX,
        t.div_req(d),
        ((d - t) as i64).div_req(d),
    ensures
        t == k * d,
        t.div_spec(d) == k,
        ((d - t) as i64).div_spec(d) == 1 - k,
{
    let k = t / d;
    vstd::arithmetic::div_mod::lemma_fundamental_div_mod(t as int, d as int);
    assert(t == d * k + 0);
    assert(t == k * d) by (nonlinear_arith)
        requires
            t == d * k,
    ;
    lemma_quotient_fits(k, d as int, t as int);
    lemma_div_exact(k as i64, d);
    let u = d - t;
    assert(u == (1 - k) * d) by (nonlinear_arith)
        requires
            t == k * d,
            u == d - t,
    ;
    lemma_quotient_fits(1 - k, d as int, u);
    lemma_div_exact((1 - k) as i64, d);
    k
}

proof fn lemma_quad_duality(t: i64, c: i64, d: i64)
    requires
        d != 0,
        t % d == 0,
        i64::MIN <= d - t <= i64::MAX,
        in_pow_req(t, 0i64, c, d, 2),
        out_quad_req((d - t) as i64, 0i64, c, d),
    ensures
        in_pow_spec(t, 0i64, c, d, 2) + out_quad_spec((d - t) as i64, 0i64, c, d) == c,
{
    let k = lemma_whole_durations(t, d);
    lemma_pow_small(k);
    lemma_mul_pow_exact(c, k as i64, 2);
    let x = 1 - k;
    assert(out_quad_spec((d - t) as i64, 0i64, c, d) == (-c) * x * (x - 2));
    assert(c * (k * k) + (-c) * x * (x - 2) == c) by (nonlinear_arith)
        requires
            x == 1 - k,
    ;
}

proof fn lemma_odd_duality(t: i64, c: i64, d: i64, n: nat)
    requires
        n == 3 || n == 5,
        d != 0,
        t % d == 0,
        i64::MIN <= d - t <= i64::MAX,
        in_pow_req(t, 0i64, c, d, n),
        out_odd_req((d - t) as i64, 0i64, c, d, n),
    ensures
        in_pow_spec(t, 0i64, c, d, n) + out_odd_spec((d - t) as i64, 0i64, c, d, n) == c,
{
    let k = lemma_whole_durations(t, d);
    lemma_pow_small(k);
    lemma_mul_pow_exact(c, k as i64, n);
    let x = -k;
    assert(((1 - k) as i64).sub_spec(one::<i64>()) == x);
    lemma_mul_pow_exact(x as i64, x as i64, (n - 1) as nat);
    let q = pow(k, n);
    if n == 3 {
        assert(x * pow(x, 2) == -q) by (nonlinear_arith)
            requires
                x == -k,
                pow(x, 2) == k * k,
                q == k * k * k,
        ;
    } else {
        assert(x * pow(x, 4) == -q) by (nonlinear_arith)
            requires
                x == -k,
                pow(x, 4) == k * k * k * k,
                q == k * k * k * k * k,
        ;
    }
    assert(mul_pow(x as i64, x as i64, (n - 1) as nat) == -q);
    assert(c * q + c * (-q + 1) == c) by (nonlinear_arith);
}

proof fn lemma_quart_duality(t: i64, c: i64, d: i64)
    requires
        d != 0,
        t % d == 0,
        i64::MIN <= d - t <= i64::MAX,
        in_pow_req(t, 0i64, c, d, 4),
        out_quart_req((d - t) as i64, 0i64, c, d),
    ensures
        in_pow_spec(t, 0i64, c, d, 4) + out_quart_spec((d - t) as i64, 0i64, c, d) == c,
{
    let k = lemma_whole_durations(t, d);
    lemma_pow_small(k);
    lemma_mul_pow_exact(c, k as i64, 4);
    let x = -k;
    assert(((1 - k) as i64).sub_spec(one::<i64>()) == x);
    lemma_mul_pow_exact(x as i64, x as i64, 3);
    let q = pow(k, 4);
    assert(x * pow(x, 3) == q) by (nonlinear_arith)
        requires
            x == -k,
            pow(x, 3) == -(k * k * k),
            q == k * k * k * k,
    ;
    assert(c * q + (-c) * (q - 1) == c) by (nonlinear_arith);
}

/// Ease-in and ease-out are dual: `in(t) + out(d - t) == b + c`, with
/// `b = 0` (for another `b` the sum is `2 * b + c`), wherever `t / d` is exact
/// and both calls are defined.
pub proof fn lemma_in_out_duality(t: i64, b: i64, c: i64, d: i64)
    requires
        d != 0,
        b == 0,
        t % d == 0,
        i64::MIN <= d - t <= i64::MAX,
    ensures
        in_pow_req(t, b, c, d, 2) && out_quad_req((d - t) as i64, b, c, d) ==> in_pow_spec(
            t,
            b,
            c,
            d,
            2,
        ) + out_quad_spec((d - t) as i64, b, c, d) == b + c,
        in_pow_req(t, b, c, d, 3) && out_odd_req((d - t) as i64, b, c, d, 3) ==> in_pow_spec(
            t,
            b,
            c,
            d,
            3,
        ) + out_odd_spec((d - t) as i64, b, c, d, 3) == b + c,
        in_pow_req(t, b, c, d, 4) && out_quart_req((d - t) as i64, b, c, d) ==> in_pow_spec(
            t,
            b,
            c,
            d,
            4,
        ) + out_quart_spec((d - t) as i64, b, c, d) == b + c,
        in_pow_req(t, b, c, d, 5) && out_odd_req((d - t) as i64, b, c, d, 5) ==> in_pow_spec(
            t,
            b,
            c,
            d,
            5,
        ) + out_odd_spec((d - t) as i64, b, c, d, 5) == b + c,
{
    if in_pow_req(t, b, c, d, 2) && out_quad_req((d - t) as i64, b, c, d) {
        lemma_quad_duality(t, c, d);
    }
    if in_pow_req(t, b, c, d, 3) && out_odd_req((d - t) as i64, b, c, d, 3) {
        lemma_odd_duality(t, c, d, 3);
    }
    if in_pow_req(t, b, c, d, 4) && out_quart_req((d - t) as i64, b, c, d) {
        lemma_quart_duality(t, c, d);
    }
    if in_pow_req(t, b, c, d, 5) && out_odd_req((d - t) as i64, b, c, d, 5) {
        lemma_odd_duality(t, c, d, 5);
    }
}

} // verus!
