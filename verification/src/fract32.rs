//! Fractions over 32-bit unsigned integers.
//!
//! A value is a numerator/denominator pair stored verbatim: nothing keeps it
//! in lowest terms and nothing rules out a zero denominator. Every operation
//! wraps modulo 2^32, exactly as `u32` arithmetic does.

use crate::gcd::{
    gcd_u32, lemma_gcd_of_quotients, lemma_gcd_pos, lemma_gcd_quotient_bounds, spec_gcd,
};
use vstd::arithmetic::div_mod::{lemma_add_mod_noop, lemma_sub_mod_noop};
use vstd::prelude::*;

verus! {

/// Reduction of a value to the modulus of 32-bit unsigned arithmetic.
pub open spec fn wrap(v: int) -> u32 {
    (v % 0x1_0000_0000) as u32
}

#[derive(Debug, PartialEq, Eq, Structural, Clone, Copy)]
pub struct Fract32 {
    pub numerator: u32,
    pub denominator: u32,
}

/// What `invert` returns: the two fields swapped.
pub open spec fn spec_invert(x: Fract32) -> Fract32 {
    Fract32 { numerator: x.denominator, denominator: x.numerator }
}

/// What `expand` returns: both fields scaled by the factor, modulo 2^32.
pub open spec fn spec_expand(x: Fract32, multiplicator: u32) -> Fract32 {
    Fract32 {
        numerator: wrap(x.numerator * multiplicator),
        denominator: wrap(x.denominator * multiplicator),
    }
}

/// What `reduce` returns: both fields divided by their greatest common
/// divisor.
pub open spec fn spec_reduce(x: Fract32) -> Fract32
    recommends
        x.numerator != 0 || x.denominator != 0,
{
    let g = spec_gcd(x.numerator as int, x.denominator as int);
    Fract32 {
        numerator: (x.numerator as int / g) as u32,
        denominator: (x.denominator as int / g) as u32,
    }
}

/// What `add` returns: with equal denominators the numerators add and the
/// denominator is kept; otherwise each side is first brought to the common
/// product denominator by cross multiplication. All arithmetic is modulo 2^32.
pub open spec fn spec_add(x: Fract32, y: Fract32) -> Fract32 {
    if x.denominator == y.denominator {
        Fract32 { numerator: wrap(x.numerator + y.numerator), denominator: x.denominator }
    } else {
        Fract32 {
            numerator: wrap(x.numerator * y.denominator + y.numerator * x.denominator),
            denominator: wrap(x.denominator * y.denominator),
        }
    }
}

/// What `sub` returns: as `spec_add`, with the aligned numerators
/// subtracted instead; a negative difference wraps modulo 2^32.
pub open spec fn spec_sub(x: Fract32, y: Fract32) -> Fract32 {
    if x.denominator == y.denominator {
        Fract32 { numerator: wrap(x.numerator - y.numerator), denominator: x.denominator }
    } else {
        Fract32 {
            numerator: wrap(x.numerator * y.denominator - y.numerator * x.denominator),
            denominator: wrap(x.denominator * y.denominator),
        }
    }
}

/// What `mul` returns: numerators multiplied, denominators multiplied,
/// modulo 2^32.
pub open spec fn spec_mul(x: Fract32, y: Fract32) -> Fract32 {
    Fract32 {
        numerator: wrap(x.numerator * y.numerator),
        denominator: wrap(x.denominator * y.denominator),
    }
}

/// What `div` returns: the product with the inverted divisor.
pub open spec fn spec_div(x: Fract32, y: Fract32) -> Fract32 {
    spec_mul(x, spec_invert(y))
}

impl Fract32 {
    /// Stores the pair verbatim: no validation, no reduction.
    pub fn new(numerator: u32, denominator: u32) -> (r: Fract32)
        ensures
            r.numerator == numerator,
            r.denominator == denominator,
    {
        Fract32 { numerator, denominator }
    }

    /// Swaps numerator and denominator. The numerator is not required to be
    /// non-zero, so the result may carry a zero denominator.
    pub fn invert(&self) -> (r: Fract32)
        ensures
            r == spec_invert(*self),
    {
        Fract32 { numerator: self.denominator, denominator: self.numerator }
    }

    /// Multiplies numerator and denominator by `multiplicator`, wrapping
    /// modulo 2^32. This is the alignment step behind `add` and `sub`; it
    /// preserves the represented value only while nothing overflows.
    pub fn expand(&self, multiplicator: u32) -> (r: Fract32)
        ensures
            r == spec_expand(*self, multiplicator),
    {
        Fract32 {
            numerator: self.numerator.wrapping_mul(multiplicator),
            denominator: self.denominator.wrapping_mul(multiplicator),
        }
    }

    /// Divides numerator and denominator by their greatest common divisor.
    /// A fraction whose fields are both zero is left out: its divisor would
    /// be zero and the quotients undefined.
    pub fn reduce(&self) -> (r: Fract32)
        requires
            self.numerator != 0 || self.denominator != 0,
        ensures
            r == spec_reduce(*self),
    {
        proof {
            lemma_gcd_pos(self.numerator as int, self.denominator as int);
            lemma_gcd_quotient_bounds(self.numerator as int, self.denominator as int);
        }
        let gcd: u32 = gcd_u32(self.numerator, self.denominator);
        Fract32 { numerator: self.numerator / gcd, denominator: self.denominator / gcd }
    }

    /// With equal denominators, adds the numerators and keeps the
    /// denominator; otherwise expands each side by the other's denominator
    /// first. Wraps modulo 2^32.
    pub fn add(self, rhs: Fract32) -> (r: Fract32)
        ensures
            r == spec_add(self, rhs),
    {
        let mut nlhs: Fract32 = self;
        let mut nrhs: Fract32 = rhs;

        if self.denominator != rhs.denominator {
            let old_denom: u32 = nlhs.denominator;
            nlhs = nlhs.expand(nrhs.denominator);
            nrhs = nrhs.expand(old_denom);
            proof {
                lemma_add_mod_noop(
                    self.numerator * rhs.denominator,
                    rhs.numerator * self.denominator,
                    0x1_0000_0000,
                );
            }
        }

        Fract32 { numerator: nlhs.numerator.wrapping_add(nrhs.numerator), denominator: nlhs.denominator }
    }

    /// With equal denominators, subtracts the numerators and keeps the
    /// denominator; otherwise expands each side by the other's denominator
    /// first. A negative difference wraps modulo 2^32.
    pub fn sub(self, rhs: Fract32) -> (r: Fract32)
        ensures
            r == spec_sub(self, rhs),
    {
        let mut nlhs: Fract32 = self;
        let mut nrhs: Fract32 = rhs;

        if self.denominator != rhs.denominator {
            let old_denom: u32 = nlhs.denominator;
            nlhs = nlhs.expand(nrhs.denominator);
            nrhs = nrhs.expand(old_denom);
            proof {
                lemma_sub_mod_noop(
                    self.numerator * rhs.denominator,
                    rhs.numerator * self.denominator,
                    0x1_0000_0000,
                );
            }
        }

        Fract32 { numerator: nlhs.numerator.wrapping_sub(nrhs.numerator), denominator: nlhs.denominator }
    }

    /// Multiplies numerators and denominators pairwise, wrapping modulo 2^32.
    /// No reduction of the result.
    pub fn mul(self, rhs: Fract32) -> (r: Fract32)
        ensures
            r == spec_mul(self, rhs),
    {
        Fract32 {
            numerator: self.numerator.wrapping_mul(rhs.numerator),
            denominator: self.denominator.wrapping_mul(rhs.denominator),
        }
    }

    /// Multiplies by the inverse of the divisor.
    pub fn div(self, rhs: Fract32) -> (r: Fract32)
        ensures
            r == spec_div(self, rhs),
    {
        self.mul(rhs.invert())
    }
}

impl From<u32> for Fract32 {
    /// Promotes a bare integer: the denominator is fixed to one.
    fn from(input: u32) -> (r: Fract32)
        ensures
            r.numerator == input,
            r.denominator == 1,
    {
        Fract32 { numerator: input, denominator: 1 }
    }
}

impl vstd::std_specs::convert::FromSpecImpl<u32> for Fract32 {
    open spec fn obeys_from_spec() -> bool {
        true
    }

    open spec fn from_spec(v: u32) -> Fract32 {
        Fract32 { numerator: v, denominator: 1 }
    }
}

/// Inverting twice gives back the original fraction, field for field.
pub proof fn lemma_invert_involution(x: Fract32)
    ensures
        spec_invert(spec_invert(x)) == x,
{
}

/// Reduction is idempotent wherever it is defined: dividing out the
/// greatest common divisor once leaves a pair with no common divisor but
/// one, so a second reduction changes nothing.
pub proof fn lemma_reduce_idempotent(x: Fract32)
    requires
        x.numerator != 0 || x.denominator != 0,
    ensures
        spec_reduce(spec_reduce(x)) == spec_reduce(x),
{
    let n = x.numerator as int;
    let d = x.denominator as int;
    let g = spec_gcd(n, d);
    lemma_gcd_pos(n, d);
    lemma_gcd_quotient_bounds(n, d);
    lemma_gcd_of_quotients(n, d);
    let y = spec_reduce(x);
    assert(y.numerator == n / g);
    assert(y.denominator == d / g);
    assert(spec_gcd(y.numerator as int, y.denominator as int) == 1);
    assert(spec_reduce(y) == y);
}

} // verus!
