use fract::fract32::Fract32;

#[test]
fn should_create_u32() {
    let expected: Fract32 = Fract32 {
        numerator: 8,
        denominator: 10,
    };

    let actual: Fract32 = Fract32::new(8, 10);

    assert_eq!(expected, actual)
}

#[test]
fn should_invert_u32() {
    let expected: Fract32 = Fract32 {
        numerator: 10,
        denominator: 8,
    };

    let actual: Fract32 = Fract32::new(8, 10).invert();

    assert_eq!(expected, actual)
}

#[test]
fn should_expand_u32() {
    let expected: Fract32 = Fract32 {
        numerator: 80,
        denominator: 100,
    };

    let actual: Fract32 = Fract32::new(8, 10).expand(10);

    assert_eq!(expected, actual)
}

#[test]
fn should_add_u32() {
    let expected: Fract32 = Fract32 {
        numerator: 28,
        denominator: 20,
    };

    let first: Fract32 = Fract32::new(1, 2);
    let second: Fract32 = Fract32::new(9, 10);
    let result: Fract32 = first.add(second);

    assert_eq!(expected, result)
}

#[test]
fn should_sub_u32() {
    let expected: Fract32 = Fract32 {
        numerator: 22,
        denominator: 20,
    };

    let first: Fract32 = Fract32::new(4, 2);
    let second: Fract32 = Fract32::new(9, 10);
    let result: Fract32 = first.sub(second);

    assert_eq!(expected, result)
}

#[test]
fn should_mul_u32() {
    let expected: Fract32 = Fract32 {
        numerator: 8,
        denominator: 10,
    };

    let first: Fract32 = Fract32::new(2, 5);
    let second: Fract32 = Fract32::new(4, 2);
    let result: Fract32 = first.mul(second);

    assert_eq!(expected, result)
}

#[test]
fn should_div_u32() {
    let expected: Fract32 = Fract32 {
        numerator: 10,
        denominator: 18,
    };

    let first: Fract32 = Fract32::new(1, 2);
    let second: Fract32 = Fract32::new(9, 10);
    let result: Fract32 = first.div(second);

    assert_eq!(expected, result)
}

#[test]
fn should_reduce_u32() {
    let expected: Fract32 = Fract32 {
        numerator: 5,
        denominator: 9,
    };

    let value: Fract32 = Fract32 {
        numerator: 10,
        denominator: 18,
    };

    assert_eq!(expected, value.reduce())
}
