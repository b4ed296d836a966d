//! How far the rounding of products and quotients can move a raw value.

use crate::fixed_point::{product_bits, quotient_bits, truncated_div, ONE_BITS};
use vstd::arithmetic::div_mod::{
    lemma_div_is_ordered, lemma_div_multiples_vanish, lemma_fundamental_div_mod,
    lemma_hoist_over_denominator, lemma_mod_pos_bound,
};
use vstd::prelude::*;

verus! {

/// The magnitude of `x`.
pub open spec fn magnitude(x: int) -> int {
    if x < 0 {
        -x
    } else {
        x
    }
}

/// The most by which dividing a raw value by the raw value `s` and
/// multiplying the quotient by `s` again can move it, in raw units: the
/// magnitude of the number that `s` stands for, rounded up to a whole
/// number.
pub open spec fn round_trip_slack(s: int) -> int {
    (magnitude(s) - 1) / (ONE_BITS as int) + 1
}

/// Division that rounds towards zero leaves a remainder that is smaller in
/// magnitude than the divisor and has the sign of the dividend.
pub proof fn lemma_truncated_div_remainder(n: int, d: int)
    requires
        d != 0,
    ensures
        n >= 0 ==> 0 <= n - truncated_div(n, d) * d < magnitude(d),
        n <= 0 ==> -magnitude(d) < n - truncated_div(n, d) * d <= 0,
{
    let an = magnitude(n);
    let ad = magnitude(d);
    lemma_fundamental_div_mod(an, ad);
    lemma_mod_pos_bound(an, ad);
    let q = an / ad;
    let r = an % ad;
    assert(an == ad * q + r);
    if n >= 0 && d > 0 {
        assert(truncated_div(n, d) * d == ad * q) by (nonlinear_arith)
            requires
                truncated_div(n, d) == q,
                d == ad,
        ;
    } else if n >= 0 {
        assert(truncated_div(n, d) * d == ad * q) by (nonlinear_arith)
            requires
                truncated_div(n, d) == -q,
                d == -ad,
        ;
    } else if d > 0 {
        assert(truncated_div(n, d) * d == -(ad * q)) by (nonlinear_arith)
            requires
                truncated_div(n, d) == -q,
                d == ad,
        ;
    } else {
        assert(truncated_div(n, d) * d == -(ad * q)) by (nonlinear_arith)
            requires
                truncated_div(n, d) == q,
                d == -ad,
        ;
    }
}

/// Rounding a raw value down to whole units, where the value is a whole
/// number `v` of units less an error `e`, gives `v` less the error rounded
/// up to whole units.
proof fn lemma_floor_of_shifted(v: int, e: int)
    ensures
        (v * (ONE_BITS as int) - e) / (ONE_BITS as int) == v + (-e) / (ONE_BITS as int),
{
    lemma_hoist_over_denominator(-e, v, ONE_BITS as nat);
    assert(-e + v * (ONE_BITS as int) == v * (ONE_BITS as int) - e);
}

/// The raw value `v`, divided by `s` and multiplied by `s` again, comes back
/// within [`round_trip_slack`] of where it started, and it never gains: a
/// value that is not negative does not grow, one that is not positive does
/// not shrink.
pub proof fn lemma_product_of_quotient(v: int, s: int)
    requires
        s != 0,
    ensures
        v - round_trip_slack(s) <= product_bits(quotient_bits(v, s), s) <= v + round_trip_slack(s),
        v >= 0 ==> product_bits(quotient_bits(v, s), s) <= v,
        v <= 0 ==> product_bits(quotient_bits(v, s), s) >= v,
{
    let one = ONE_BITS as int;
    let n = v * one;
    let q = quotient_bits(v, s);
    let e = n - q * s;
    let m = magnitude(s) - 1;
    lemma_truncated_div_remainder(n, s);
    assert(v >= 0 ==> n >= 0) by (nonlinear_arith)
        requires
            n == v * one,
            one > 0,
    ;
    assert(v <= 0 ==> n <= 0) by (nonlinear_arith)
        requires
            n == v * one,
            one > 0,
    ;
    assert(-m <= e <= m);
    assert(q * s == v * one - e);
    lemma_floor_of_shifted(v, e);
    assert(product_bits(q, s) == v + (-e) / one);
    lemma_div_is_ordered(-e, m, one);
    lemma_div_is_ordered(-m, -e, one);
    // -(m / one) - 1 <= (-m) / one
    lemma_fundamental_div_mod(m, one);
    lemma_mod_pos_bound(m, one);
    lemma_hoist_over_denominator(-m, m / one + 1, ONE_BITS as nat);
    assert((m / one + 1) * one == one * (m / one) + one) by (nonlinear_arith);
    lemma_div_is_ordered(0, -m + (m / one + 1) * one, one);
    if v >= 0 {
        lemma_div_is_ordered(-e, 0, one);
    }
    if v <= 0 {
        lemma_div_is_ordered(0, -e, one);
    }
}

/// Dividing by a number that is at least one and multiplying by it again
/// stays between zero and the raw value `v`, so neither step can overflow.
pub proof fn lemma_product_of_quotient_in_range(v: int, s: int)
    requires
        s >= ONE_BITS,
    ensures
        v >= 0 ==> 0 <= quotient_bits(v, s) <= v && 0 <= product_bits(quotient_bits(v, s), s) <= v,
        v <= 0 ==> v <= quotient_bits(v, s) <= 0 && v <= product_bits(quotient_bits(v, s), s) <= 0,
{
    let one = ONE_BITS as int;
    let q = quotient_bits(v, s);
    lemma_product_of_quotient(v, s);
    if v >= 0 {
        let n = v * one;
        assert(n >= 0 && 0 <= n / s && s * (n / s) <= n && (n / s) * one <= s * (n / s)
            && 0 <= (n / s) * s) by (nonlinear_arith)
            requires
                v >= 0,
                n == v * one,
                s >= one,
                one > 0,
        ;
        assert(n / s <= v) by (nonlinear_arith)
            requires
                (n / s) * one <= v * one,
                one > 0,
        ;
        assert(q == n / s);
        lemma_div_is_ordered(0, q * s, one);
    } else {
        let n = (-v) * one;
        assert(n == -(v * one)) by (nonlinear_arith)
            requires
                n == (-v) * one,
        ;
        assert(n > 0 && 0 <= n / s && s * (n / s) <= n && (n / s) * one <= s * (n / s) && (-(n
            / s)) * s <= 0) by (nonlinear_arith)
            requires
                v < 0,
                n == (-v) * one,
                s >= one,
                one > 0,
        ;
        assert(n / s <= -v) by (nonlinear_arith)
            requires
                (n / s) * one <= (-v) * one,
                one > 0,
        ;
        assert(q == -(n / s));
        lemma_div_is_ordered(q * s, 0, one);
    }
}

/// Multiplying or dividing by the number one changes nothing.
pub proof fn lemma_one_is_neutral(v: int)
    ensures
        product_bits(v, ONE_BITS as int) == v,
        quotient_bits(v, ONE_BITS as int) == v,
{
    let one = ONE_BITS as int;
    lemma_floor_of_shifted(v, 0);
    if v < 0 {
        assert(-(v * one) == (-v) * one) by (nonlinear_arith);
        lemma_floor_of_shifted(-v, 0);
        assert(v * one < 0) by (nonlinear_arith)
            requires
                v < 0,
                one > 0,
        ;
    } else {
        assert(v * one >= 0) by (nonlinear_arith)
            requires
                v >= 0,
                one > 0,
        ;
    }
}

/// A product does not shrink when its first factor grows, as long as the
/// second is not negative.
pub proof fn lemma_product_monotone(a1: int, a2: int, b: int)
    requires
        a1 <= a2,
        b >= 0,
    ensures
        product_bits(a1, b) <= product_bits(a2, b),
        product_bits(b, a1) <= product_bits(b, a2),
{
    assert(a1 * b <= a2 * b && b * a1 == a1 * b && b * a2 == a2 * b) by (nonlinear_arith)
        requires
            a1 <= a2,
            b >= 0,
    ;
    lemma_div_is_ordered(a1 * b, a2 * b, ONE_BITS as int);
}

/// The product of two numbers that are not negative is not negative.
pub proof fn lemma_product_not_negative(a: int, b: int)
    requires
        a >= 0,
        b >= 0,
    ensures
        product_bits(a, b) >= 0,
{
    lemma_product_monotone(0, a, b);
    assert(0 * b == 0);
}

/// A quotient by a positive number does not shrink when the dividend grows,
/// and has the sign of the dividend.
pub proof fn lemma_quotient_monotone(a1: int, a2: int, d: int)
    requires
        a1 <= a2,
        d > 0,
    ensures
        quotient_bits(a1, d) <= quotient_bits(a2, d),
        a1 >= 0 ==> quotient_bits(a1, d) >= 0,
        a2 <= 0 ==> quotient_bits(a2, d) <= 0,
{
    let one = ONE_BITS as int;
    let n1 = a1 * one;
    let n2 = a2 * one;
    assert(n1 <= n2 && (a1 >= 0 ==> n1 >= 0) && (a2 >= 0 ==> n2 >= 0) && (a1 < 0 ==> n1 < 0) && (a2
        < 0 ==> n2 < 0)) by (nonlinear_arith)
        requires
            a1 <= a2,
            n1 == a1 * one,
            n2 == a2 * one,
            one > 0,
    ;
    if n1 >= 0 {
        lemma_div_is_ordered(n1, n2, d);
        lemma_div_is_ordered(0, n1, d);
    } else if n2 >= 0 {
        lemma_div_is_ordered(0, -n1, d);
        lemma_div_is_ordered(0, n2, d);
    } else {
        lemma_div_is_ordered(-n2, -n1, d);
        lemma_div_is_ordered(0, -n2, d);
    }
}

/// The quotient of a positive number by itself is the number one.
pub proof fn lemma_quotient_of_self(d: int)
    requires
        d > 0,
    ensures
        quotient_bits(d, d) == ONE_BITS,
{
    let one = ONE_BITS as int;
    lemma_div_multiples_vanish(one, d);
    assert(d * one > 0) by (nonlinear_arith)
        requires
            d > 0,
            one > 0,
    ;
}

} // verus!
