use fract::fract16::Fract16;

#[test]
fn lib_should_create() {
    let expected: Fract16 = Fract16 {
        numerator: 8,
        denominator: 10,
    };

    let actual: Fract16 = Fract16::new(8, 10);

    assert_eq!(expected, actual)
}

#[test]
fn lib_should_invert() {
    let expected: Fract16 = Fract16 {
        numerator: 10,
        denominator: 8,
    };

    let actual: Fract16 = Fract16::new(8, 10).invert();

    assert_eq!(expected, actual)
}

#[test]
fn lib_should_expand() {
    let expected: Fract16 = Fract16 {
        numerator: 80,
        denominator: 100,
    };

    let actual: Fract16 = Fract16::new(8, 10).expand(10);

    assert_eq!(expected, actual)
}

#[test]
fn lib_should_add() {
    let expected: Fract16 = Fract16 {
        numerator: 28,
        denominator: 20,
    };

    let first: Fract16 = Fract16::new(1, 2);
    let second: Fract16 = Fract16::new(9, 10);
    let result: Fract16 = first.add(second);

    assert_eq!(expected, result)
}

#[test]
fn lib_should_sub() {
    let expected: Fract16 = Fract16 {
        numerator: 22,
        denominator: 20,
    };

    let first: Fract16 = Fract16::new(4, 2);
    let second: Fract16 = Fract16::new(9, 10);
    let result: Fract16 = first.sub(second);

    assert_eq!(expected, result)
}

#[test]
fn lib_should_mul() {
    let expected: Fract16 = Fract16 {
        numerator: 8,
        denominator: 10,
    };

    let first: Fract16 = Fract16::new(2, 5);
    let second: Fract16 = Fract16::new(4, 2);
    let result: Fract16 = first.mul(second);

    assert_eq!(expected, result)
}

#[test]
fn lib_should_div() {
    let expected: Fract16 = Fract16 {
        numerator: 10,
        denominator: 18,
    };

    let first: Fract16 = Fract16::new(1, 2);
    let second: Fract16 = Fract16::new(9, 10);
    let result: Fract16 = first.div(second);

    assert_eq!(expected, result)
}

#[test]
fn lib_should_reduce() {
    let expected: Fract16 = Fract16 {
        numerator: 5,
        denominator: 9,
    };

    let value: Fract16 = Fract16 {
        numerator: 10,
        denominator: 18,
    };

    assert_eq!(expected, value.reduce())
}
