//! Fixed-width fraction arithmetic over unsigned integers.
//!
//! A fraction is a numerator/denominator pair stored in one of four unsigned
//! integer widths. Values are plain data: construction stores the pair
//! verbatim, nothing is auto-reduced, and all arithmetic wraps modulo the
//! width, exactly as the underlying integer type does. Reduction to lowest
//! terms is an explicit operation built on the Euclidean greatest common
//! divisor.

pub mod fract16;
pub mod fract32;
pub mod fract64;
pub mod fract8;
pub mod gcd;
