use calculator::CalcError;

fn bits(x: f64) -> u64 {
    x.to_bits()
}

fn num(b: u64) -> f64 {
    f64::from_bits(b)
}

#[test]
fn stateless_add() {
    let r = calculator::arith::add(bits(10.0), bits(3.0));
    assert_eq!(num(r), 13.0);
}

#[test]
fn stateless_add_rounds_like_native() {
    let r = calculator::arith::add(bits(0.1), bits(0.2));
    assert_eq!(num(r), 0.1 + 0.2);
}

#[test]
fn stateless_subtract() {
    let r = calculator::arith::subtract(bits(10.0), bits(3.0));
    assert_eq!(num(r), 7.0);
}

#[test]
fn stateless_multiply() {
    let r = calculator::arith::multiply(bits(10.0), bits(3.0));
    assert_eq!(num(r), 30.0);
}

#[test]
fn stateless_divide_by_zero_fails() {
    let r = calculator::arith::divide(bits(10.0), bits(0.0));
    assert_eq!(r, Err(CalcError::DivisionByZero));
}

#[test]
fn stateless_divide_exact() {
    let r = calculator::arith::divide(bits(10.0), bits(2.0));
    assert_eq!(r, Ok(bits(5.0)));
}

#[test]
fn stateless_divide_rounds_like_native() {
    let r = calculator::arith::divide(bits(1.0), bits(3.0));
    assert_eq!(num(r.unwrap()), 1.0 / 3.0);
}

#[test]
fn error_messages_match_the_host_text() {
    assert_eq!(CalcError::DivisionByZero.message(), "Division by zero");
    assert_eq!(
        CalcError::NegativeSqrt.message(),
        "Cannot take square root of negative number"
    );
}
