use fract::fract16::Fract16;
use fract::fract32::Fract32;
use fract::fract64::Fract64;
use fract::fract8::Fract8;
use fract::gcd::{gcd_u16, gcd_u32, gcd_u64, gcd_u8};

#[test]
fn gcd_with_zero_second_argument() {
    assert_eq!(gcd_u8(12, 0), 12);
    assert_eq!(gcd_u16(12, 0), 12);
    assert_eq!(gcd_u32(12, 0), 12);
    assert_eq!(gcd_u64(12, 0), 12);
}

#[test]
fn gcd_with_zero_first_argument() {
    assert_eq!(gcd_u8(0, 9), 9);
    assert_eq!(gcd_u16(0, 9), 9);
    assert_eq!(gcd_u32(0, 9), 9);
    assert_eq!(gcd_u64(0, 9), 9);
}

#[test]
fn gcd_of_two_zeros() {
    assert_eq!(gcd_u8(0, 0), 0);
    assert_eq!(gcd_u16(0, 0), 0);
    assert_eq!(gcd_u32(0, 0), 0);
    assert_eq!(gcd_u64(0, 0), 0);
}

#[test]
fn gcd_exact_values() {
    assert_eq!(gcd_u8(10, 18), 2);
    assert_eq!(gcd_u16(270, 192), 6);
    assert_eq!(gcd_u32(270, 192), 6);
    assert_eq!(gcd_u64(48, 18), 6);
}

#[test]
fn expand_wraps_at_width_8() {
    let expected: Fract8 = Fract8 {
        numerator: 144,
        denominator: 4,
    };

    assert_eq!(expected, Fract8::new(200, 2).expand(2))
}

#[test]
fn expand_wraps_at_width_16() {
    let expected: Fract16 = Fract16 {
        numerator: 54464,
        denominator: 6,
    };

    assert_eq!(expected, Fract16::new(60000, 3).expand(2))
}

#[test]
fn expand_wraps_at_width_32() {
    let expected: Fract32 = Fract32 {
        numerator: 1_705_032_704,
        denominator: 10,
    };

    assert_eq!(expected, Fract32::new(3_000_000_000, 5).expand(2))
}

#[test]
fn expand_wraps_at_width_64() {
    let expected: Fract64 = Fract64 {
        numerator: 1_553_255_926_290_448_384,
        denominator: 14,
    };

    assert_eq!(expected, Fract64::new(10_000_000_000_000_000_000, 7).expand(2))
}

#[test]
fn add_keeps_an_equal_denominator() {
    let expected: Fract8 = Fract8 {
        numerator: 12,
        denominator: 10,
    };

    assert_eq!(expected, Fract8::new(3, 10).add(Fract8::new(9, 10)))
}

#[test]
fn sub_keeps_an_equal_denominator() {
    let expected: Fract8 = Fract8 {
        numerator: 6,
        denominator: 10,
    };

    assert_eq!(expected, Fract8::new(9, 10).sub(Fract8::new(3, 10)))
}

#[test]
fn add_wraps_on_numerator_overflow() {
    let expected: Fract8 = Fract8 {
        numerator: 3,
        denominator: 10,
    };

    assert_eq!(expected, Fract8::new(250, 10).add(Fract8::new(9, 10)))
}

#[test]
fn sub_wraps_on_numerator_underflow() {
    let expected: Fract8 = Fract8 {
        numerator: 255,
        denominator: 10,
    };

    assert_eq!(expected, Fract8::new(1, 10).sub(Fract8::new(2, 10)))
}

#[test]
fn mul_wraps_on_overflow() {
    let expected: Fract8 = Fract8 {
        numerator: 0,
        denominator: 1,
    };

    assert_eq!(expected, Fract8::new(16, 1).mul(Fract8::new(16, 1)))
}

#[test]
fn from_fixes_denominator_to_one() {
    assert_eq!(
        Fract8::from(5u8),
        Fract8 {
            numerator: 5,
            denominator: 1
        }
    );
    assert_eq!(
        Fract16::from(5u16),
        Fract16 {
            numerator: 5,
            denominator: 1
        }
    );
    assert_eq!(
        Fract32::from(5u32),
        Fract32 {
            numerator: 5,
            denominator: 1
        }
    );
    assert_eq!(
        Fract64::from(5u64),
        Fract64 {
            numerator: 5,
            denominator: 1
        }
    );
}

#[test]
fn reduce_is_idempotent_on_a_sample() {
    let once: Fract8 = Fract8::new(10, 18).reduce();

    assert_eq!(once, once.reduce())
}

#[test]
fn reduce_is_idempotent_on_a_wide_sample() {
    let once: Fract64 = Fract64::new(9_223_372_036_854_775_808, 4_611_686_018_427_387_904).reduce();

    let expected: Fract64 = Fract64 {
        numerator: 2,
        denominator: 1,
    };

    assert_eq!(expected, once);
    assert_eq!(expected, once.reduce())
}

#[test]
fn reduce_with_zero_numerator() {
    let expected: Fract8 = Fract8 {
        numerator: 0,
        denominator: 1,
    };

    assert_eq!(expected, Fract8::new(0, 6).reduce())
}

#[test]
fn invert_round_trips() {
    let value: Fract8 = Fract8::new(8, 10);
    assert_eq!(value, value.invert().invert());

    let wide: Fract64 = Fract64::new(0, 10_000_000_000);
    assert_eq!(wide, wide.invert().invert());
}
