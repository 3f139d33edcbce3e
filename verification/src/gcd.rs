//! Greatest common divisor of two unsigned integers, one function per width,
//! by the iterative Euclidean algorithm, together with the divisibility
//! theory the fraction types build their reduction proofs on.

use vstd::arithmetic::div_mod::{
    lemma_div_multiples_vanish, lemma_div_nonincreasing, lemma_div_pos_is_pos,
    lemma_fundamental_div_mod, lemma_small_mod,
};
use vstd::prelude::*;

verus! {

/// `d` divides `n`: some integer multiple of `d` equals `n`.
pub open spec fn divides(d: int, n: int) -> bool {
    exists|k: int| n == #[trigger] (d * k)
}

/// The greatest common divisor, written as the Euclidean recurrence:
/// `spec_gcd(a, 0) == a`, and otherwise the pair `(a, b)` steps to
/// `(b, a % b)`. `lemma_gcd_divides` and `lemma_common_divisor_divides_gcd`
/// below show that this really is the greatest common divisor.
pub open spec fn spec_gcd(a: int, b: int) -> int
    recommends
        0 <= a,
        0 <= b,
    decreases b,
{
    if b <= 0 {
        a
    } else {
        spec_gcd(b, a % b)
    }
}

/// The edge rows of the Euclidean recurrence: a zero argument leaves the
/// other argument as the divisor, and in particular both arguments zero
/// give zero.
pub proof fn lemma_gcd_zero_cases(a: int, b: int)
    requires
        0 <= a,
        0 <= b,
    ensures
        spec_gcd(a, 0) == a,
        spec_gcd(0, b) == b,
        spec_gcd(0, 0) == 0,
{
    if b > 0 {
        lemma_small_mod(0, b as nat);
        assert(spec_gcd(0, b) == spec_gcd(b, 0));
    }
}

/// The greatest common divisor is positive as soon as either argument is.
pub proof fn lemma_gcd_pos(a: int, b: int)
    requires
        0 <= a,
        0 <= b,
        a > 0 || b > 0,
    ensures
        spec_gcd(a, b) > 0,
    decreases b,
{
    if b > 0 {
        lemma_gcd_pos(b, a % b);
    }
}

/// The greatest common divisor divides both of its arguments.
pub proof fn lemma_gcd_divides(a: int, b: int)
    requires
        0 <= a,
        0 <= b,
    ensures
        divides(spec_gcd(a, b), a),
        divides(spec_gcd(a, b), b),
    decreases b,
{
    if b == 0 {
        assert(divides(a, a)) by {
            assert(a == a * 1);
        }
        assert(divides(a, 0)) by {
            assert(0 == a * 0);
        }
    } else {
        lemma_gcd_divides(b, a % b);
        let g = spec_gcd(b, a % b);
        let k1 = choose|k: int| b == #[trigger] (g * k);
        let k2 = choose|k: int| (a % b) == #[trigger] (g * k);
        let q = a / b;
        lemma_fundamental_div_mod(a, b);
        assert(a == g * (k1 * q + k2)) by (nonlinear_arith)
            requires
                a == b * q + a % b,
                b == g * k1,
                a % b == g * k2,
        ;
        assert(divides(g, a));
    }
}

/// Every common divisor of the two arguments divides their greatest
/// common divisor: the Euclidean value is greatest among common divisors.
pub proof fn lemma_common_divisor_divides_gcd(d: int, a: int, b: int)
    requires
        0 <= a,
        0 <= b,
        divides(d, a),
        divides(d, b),
    ensures
        divides(d, spec_gcd(a, b)),
    decreases b,
{
    if b > 0 {
        let ka = choose|k: int| a == #[trigger] (d * k);
        let kb = choose|k: int| b == #[trigger] (d * k);
        let q = a / b;
        lemma_fundamental_div_mod(a, b);
        assert(a % b == d * (ka - q * kb)) by (nonlinear_arith)
            requires
                a == b * q + a % b,
                a == d * ka,
                b == d * kb,
        ;
        assert(divides(d, a % b));
        lemma_common_divisor_divides_gcd(d, b, a % b);
    }
}

/// Dividing both arguments by their greatest common divisor leaves a pair
/// whose greatest common divisor is one: nothing further can be cancelled.
pub proof fn lemma_gcd_of_quotients(a: int, b: int)
    requires
        0 <= a,
        0 <= b,
        a > 0 || b > 0,
    ensures
        spec_gcd(a / spec_gcd(a, b), b / spec_gcd(a, b)) == 1,
{
    let g = spec_gcd(a, b);
    lemma_gcd_pos(a, b);
    lemma_gcd_divides(a, b);
    let a1 = a / g;
    let b1 = b / g;
    let ka = choose|k: int| a == #[trigger] (g * k);
    let kb = choose|k: int| b == #[trigger] (g * k);
    lemma_div_multiples_vanish(ka, g);
    lemma_div_multiples_vanish(kb, g);
    assert(a1 == ka);
    assert(b1 == kb);
    lemma_div_pos_is_pos(a, g);
    lemma_div_pos_is_pos(b, g);
    if a > 0 {
        assert(a1 > 0) by (nonlinear_arith)
            requires
                a == g * a1,
                a > 0,
                0 <= a1,
        ;
    }
    if b > 0 {
        assert(b1 > 0) by (nonlinear_arith)
            requires
                b == g * b1,
                b > 0,
                0 <= b1,
        ;
    }
    let e = spec_gcd(a1, b1);
    lemma_gcd_pos(a1, b1);
    lemma_gcd_divides(a1, b1);
    let k1 = choose|k: int| a1 == #[trigger] (e * k);
    let k2 = choose|k: int| b1 == #[trigger] (e * k);
    assert(a == (g * e) * k1) by (nonlinear_arith)
        requires
            a == g * a1,
            a1 == e * k1,
    ;
    assert(b == (g * e) * k2) by (nonlinear_arith)
        requires
            b == g * b1,
            b1 == e * k2,
    ;
    assert(divides(g * e, a));
    assert(divides(g * e, b));
    lemma_common_divisor_divides_gcd(g * e, a, b);
    let t = choose|k: int| g == #[trigger] ((g * e) * k);
    assert(e == 1) by (nonlinear_arith)
        requires
            g == (g * e) * t,
            g > 0,
            e > 0,
    ;
}

/// Quotients by the greatest common divisor stay within the range of the
/// original arguments, so they fit in the same integer width.
pub proof fn lemma_gcd_quotient_bounds(a: int, b: int)
    requires
        0 <= a,
        0 <= b,
        spec_gcd(a, b) > 0,
    ensures
        0 <= a / spec_gcd(a, b) <= a,
        0 <= b / spec_gcd(a, b) <= b,
{
    let g = spec_gcd(a, b);
    lemma_div_pos_is_pos(a, g);
    lemma_div_pos_is_pos(b, g);
    lemma_div_nonincreasing(a, g);
    lemma_div_nonincreasing(b, g);
}

pub fn gcd_u8(first: u8, second: u8) -> (r: u8)
    ensures
        r == spec_gcd(first as int, second as int),
{
    let mut a: u8 = first;
    let mut b: u8 = second;
    loop
        invariant
            spec_gcd(a as int, b as int) == spec_gcd(first as int, second as int),
        ensures
            b == 0,
            spec_gcd(a as int, b as int) == spec_gcd(first as int, second as int),
        decreases b,
    {
        if b == 0 {
            break;
        }

        let temp: u8 = b;
        b = a % b;
        a = temp;
    }

    a
}

pub fn gcd_u16(first: u16, second: u16) -> (r: u16)
    ensures
        r == spec_gcd(first as int, second as int),
{
    let mut a: u16 = first;
    let mut b: u16 = second;
    loop
        invariant
            spec_gcd(a as int, b as int) == spec_gcd(first as int, second as int),
        ensures
            b == 0,
            spec_gcd(a as int, b as int) == spec_gcd(first as int, second as int),
        decreases b,
    {
        if b == 0 {
            break;
        }

        let temp: u16 = b;
        b = a % b;
        a = temp;
    }

    a
}

pub fn gcd_u32(first: u32, second: u32) -> (r: u32)
    ensures
        r == spec_gcd(first as int, second as int),
{
    let mut a: u32 = first;
    let mut b: u32 = second;
    loop
        invariant
            spec_gcd(a as int, b as int) == spec_gcd(first as int, second as int),
        ensures
            b == 0,
            spec_gcd(a as int, b as int) == spec_gcd(first as int, second as int),
        decreases b,
    {
        if b == 0 {
            break;
        }

        let temp: u32 = b;
        b = a % b;
        a = temp;
    }

    a
}

pub fn gcd_u64(first: u64, second: u64) -> (r: u64)
    ensures
        r == spec_gcd(first as int, second as int),
{
    let mut a: u64 = first;
    let mut b: u64 = second;
    loop
        invariant
            spec_gcd(a as int, b as int) == spec_gcd(first as int, second as int),
        ensures
            b == 0,
            spec_gcd(a as int, b as int) == spec_gcd(first as int, second as int),
        decreases b,
    {
        if b == 0 {
            break;
        }

        let temp: u64 = b;
        b = a % b;
        a = temp;
    }

    a
}

} // verus!
