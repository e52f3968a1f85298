use fibonacci_server::engine::fib;
use fibonacci_server::engine::ValidationError;
use fibonacci_server::engine::MAX_N;
use fibonacci_server::engine::MIN_N;

#[test]
fn first_terms_are_the_standard_sequence() {
    let expected: [i64; 10] = [1, 1, 2, 3, 5, 8, 13, 21, 34, 55];
    for (index, value) in expected.iter().enumerate() {
        assert_eq!(fib(index as i64 + 1), Ok(*value));
    }
}

#[test]
fn every_term_is_the_sum_of_the_two_before() {
    let mut n: i64 = 3;
    while n <= 90 {
        let sum = fib(n - 1).unwrap() + fib(n - 2).unwrap();
        assert_eq!(fib(n), Ok(sum));
        n += 1;
    }
}

#[test]
fn domain_bounds() {
    assert_eq!(MIN_N, 1);
    assert_eq!(MAX_N, 90);
    assert_eq!(fib(1), Ok(1));
    assert_eq!(fib(2), Ok(1));
    assert_eq!(fib(89), Ok(1779979416004714189));
    assert_eq!(fib(90), Ok(2880067194370816120));
}

#[test]
fn outside_the_domain_is_rejected() {
    assert_eq!(fib(0), Err(ValidationError::OutOfRange));
    assert_eq!(fib(91), Err(ValidationError::OutOfRange));
    assert_eq!(fib(-1), Err(ValidationError::OutOfRange));
    assert_eq!(fib(-90), Err(ValidationError::OutOfRange));
    assert_eq!(fib(i64::MIN), Err(ValidationError::OutOfRange));
    assert_eq!(fib(i64::MAX), Err(ValidationError::OutOfRange));
}

#[test]
fn validation_message_text() {
    assert_eq!(ValidationError::OutOfRange.message(), "n must be between 1 and 90");
}
