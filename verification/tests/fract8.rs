use fract::fract8::Fract8;

#[test]
fn should_create() {
    let expected: Fract8 = Fract8 {
        numerator: 8,
        denominator: 10,
    };

    let actual: Fract8 = Fract8::new(8, 10);

    assert_eq!(expected, actual)
}

#[test]
fn should_invert() {
    let expected: Fract8 = Fract8 {
        numerator: 10,
        denominator: 8,
    };

    let actual: Fract8 = Fract8::new(8, 10).invert();

    assert_eq!(expected, actual)
}

#[test]
fn should_expand() {
    let expected: Fract8 = Fract8 {
        numerator: 80,
        denominator: 100,
    };

    let actual: Fract8 = Fract8::new(8, 10).expand(10);

    assert_eq!(expected, actual)
}

#[test]
fn should_add() {
    let expected: Fract8 = Fract8 {
        numerator: 28,
        denominator: 20,
    };

    let first: Fract8 = Fract8::new(1, 2);
    let second: Fract8 = Fract8::new(9, 10);
    let result: Fract8 = first.add(second);

    assert_eq!(expected, result)
}

#[test]
fn should_sub() {
    let expected: Fract8 = Fract8 {
        numerator: 22,
        denominator: 20,
    };

    let first: Fract8 = Fract8::new(4, 2);
    let second: Fract8 = Fract8::new(9, 10);
    let result: Fract8 = first.sub(second);

    assert_eq!(expected, result)
}

#[test]
fn should_mul() {
    let expected: Fract8 = Fract8 {
        numerator: 8,
        denominator: 10,
    };

    let first: Fract8 = Fract8::new(2, 5);
    let second: Fract8 = Fract8::new(4, 2);
    let result: Fract8 = first.mul(second);

    assert_eq!(expected, result)
}

#[test]
fn should_div() {
    let expected: Fract8 = Fract8 {
        numerator: 10,
        denominator: 18,
    };

    let first: Fract8 = Fract8::new(1, 2);
    let second: Fract8 = Fract8::new(9, 10);
    let result: Fract8 = first.div(second);

    assert_eq!(expected, result)
}

#[test]
fn should_reduce() {
    let expected: Fract8 = Fract8 {
        numerator: 5,
        denominator: 9,
    };

    let value: Fract8 = Fract8 {
        numerator: 10,
        denominator: 18,
    };

    assert_eq!(expected, value.reduce())
}
