//! Arithmetic on operands: exact integer results brought back into 32 bits.

use vstd::prelude::*;

verus! {

/// The number of distinct 32-bit values.
pub open spec fn modulus() -> int {
    0x1_0000_0000
}

/// The 32-bit signed integer that is congruent to `x` modulo 2^32.
pub open spec fn wrap32(x: int) -> i32 {
    let r: int = x % modulus();
    if r > i32::MAX {
        (r - modulus()) as i32
    } else {
        r as i32
    }
}

/// The quotient of `a` by `b` rounded toward zero, for `b != 0`.
pub open spec fn trunc_div(a: int, b: int) -> int
    recommends
        b != 0,
{
    if a >= 0 && b > 0 {
        a / b
    } else if a >= 0 {
        -(a / (-b))
    } else if b > 0 {
        -((-a) / b)
    } else {
        (-a) / (-b)
    }
}

/// `a + b`, wrapped into 32 bits.
pub(crate) fn wrapping_sum(a: i32, b: i32) -> (r: i32)
    ensures
        r == wrap32(a + b),
{
    a.wrapping_add(b)
}

/// `a - b`, wrapped into 32 bits.
pub(crate) fn wrapping_difference(a: i32, b: i32) -> (r: i32)
    ensures
        r == wrap32(a - b),
{
    a.wrapping_sub(b)
}

/// `a * b`, wrapped into 32 bits.
pub(crate) fn wrapping_product(a: i32, b: i32) -> (r: i32)
    ensures
        r == wrap32(a * b),
{
    a.wrapping_mul(b)
}

/// `a / b` rounded toward zero, wrapped into 32 bits.
pub(crate) fn wrapping_quotient(a: i32, b: i32) -> (r: i32)
    requires
        b != 0,
    ensures
        r == wrap32(trunc_div(a as int, b as int)),
{
    match a.checked_div(b) {
        Some(q) => q,
        None => i32::MIN,
    }
}

/// A value that fits in 32 bits is left as it is by wrapping.
pub proof fn lemma_wrap32_exact(x: int)
    requires
        i32::MIN <= x <= i32::MAX,
    ensures
        wrap32(x) == x,
{
}

/// Wrapping changes a value by a multiple of 2^32 and by nothing else.
pub proof fn lemma_wrap32_congruent(x: int)
    ensures
        (wrap32(x) - x) % modulus() == 0,
{
}

/// Division rounds toward zero: the quotient times the divisor never passes
/// the dividend, and what is left over is smaller than the divisor and has
/// the dividend's sign.
pub proof fn lemma_trunc_div_rounds_toward_zero(a: int, b: int)
    requires
        b != 0,
    ensures
        ({
            let rest: int = a - trunc_div(a, b) * b;
            &&& a >= 0 ==> 0 <= rest
            &&& a <= 0 ==> rest <= 0
            &&& b > 0 ==> -b < rest < b
            &&& b < 0 ==> b < rest < -b
        }),
{
    let q: int = trunc_div(a, b);
    if a >= 0 && b > 0 {
        vstd::arithmetic::div_mod::lemma_fundamental_div_mod(a, b);
        assert(q * b == b * (a / b)) by (nonlinear_arith)
            requires
                q == a / b,
        ;
    } else if a >= 0 {
        vstd::arithmetic::div_mod::lemma_fundamental_div_mod(a, -b);
        assert(q * b == (-b) * (a / (-b))) by (nonlinear_arith)
            requires
                q == -(a / (-b)),
        ;
    } else if b > 0 {
        vstd::arithmetic::div_mod::lemma_fundamental_div_mod(-a, b);
        assert(q * b == -(b * ((-a) / b))) by (nonlinear_arith)
            requires
                q == -((-a) / b),
        ;
    } else {
        vstd::arithmetic::div_mod::lemma_fundamental_div_mod(-a, -b);
        assert(q * b == -((-b) * ((-a) / (-b)))) by (nonlinear_arith)
            requires
                q == (-a) / (-b),
        ;
    }
}

/// Only the smallest 32-bit value divided by -1 has a quotient that does not
/// fit in 32 bits.
pub proof fn lemma_trunc_div_fits(a: i32, b: i32)
    requires
        b != 0,
        !(a == i32::MIN && b == -1),
    ensures
        i32::MIN <= trunc_div(a as int, b as int) <= i32::MAX,
{
    let x: int = if a >= 0 {
        a as int
    } else {
        -(a as int)
    };
    let d: int = if b > 0 {
        b as int
    } else {
        -(b as int)
    };
    vstd::arithmetic::div_mod::lemma_div_pos_is_pos(x, d);
    vstd::arithmetic::div_mod::lemma_div_nonincreasing(x, d);
    if d >= 2 {
        vstd::arithmetic::div_mod::lemma_div_is_ordered_by_denominator(x, 2, d);
    }
}

} // verus!
