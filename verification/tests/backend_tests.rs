use backend::decimal::i32_to_string;
use backend::handlers::{health_check, multiply_numbers};
use backend::models::ErrorResponse;
use backend::timestamp::is_rfc3339_shaped;

#[test]
fn multiply_six_by_seven() {
    let resp = multiply_numbers(6, 7).unwrap();
    assert_eq!(resp.result, 42);
    assert_eq!(resp.message, "Successfully multiplied 6 and 7");
    assert_eq!(resp.operation, "6 × 7 = 42");
}

#[test]
fn multiply_negative_by_positive() {
    let resp = multiply_numbers(-3, 5).unwrap();
    assert_eq!(resp.result, -15);
    assert_eq!(resp.message, "Successfully multiplied -3 and 5");
    assert_eq!(resp.operation, "-3 × 5 = -15");
}

#[test]
fn multiply_zero_factor_left() {
    let resp = multiply_numbers(0, 123).unwrap();
    assert_eq!(resp.result, 0);
    assert_eq!(resp.operation, "0 × 123 = 0");
}

#[test]
fn multiply_zero_factor_right() {
    let resp = multiply_numbers(-2147483648, 0).unwrap();
    assert_eq!(resp.result, 0);
    assert_eq!(resp.operation, "-2147483648 × 0 = 0");
}

#[test]
fn multiply_at_the_limits() {
    let resp = multiply_numbers(i32::MAX, 1).unwrap();
    assert_eq!(resp.result, i32::MAX);
    assert_eq!(resp.operation, "2147483647 × 1 = 2147483647");

    let resp = multiply_numbers(i32::MIN, 1).unwrap();
    assert_eq!(resp.result, i32::MIN);
    assert_eq!(resp.operation, "-2147483648 × 1 = -2147483648");
}

#[test]
fn multiply_overflow_is_rejected() {
    let err = multiply_numbers(i32::MAX, 2).unwrap_err();
    assert_eq!(err.error, "overflow");
    assert_eq!(
        err.message,
        "multiplying 2147483647 and 2 overflows a 32-bit signed integer"
    );
    assert!(is_rfc3339_shaped(&err.timestamp));
    assert!(chrono::DateTime::parse_from_rfc3339(&err.timestamp).is_ok());
}

#[test]
fn multiply_negation_overflow_is_rejected() {
    let err = multiply_numbers(i32::MIN, -1).unwrap_err();
    assert_eq!(err.error, "overflow");
    assert_eq!(
        err.message,
        "multiplying -2147483648 and -1 overflows a 32-bit signed integer"
    );
}

#[test]
fn multiply_is_idempotent() {
    let first = multiply_numbers(41, -97).unwrap();
    let second = multiply_numbers(41, -97).unwrap();
    assert_eq!(first.result, second.result);
    assert_eq!(first.message, second.message);
    assert_eq!(first.operation, second.operation);
}

#[test]
fn decimal_exact_values() {
    assert_eq!(i32_to_string(0), "0");
    assert_eq!(i32_to_string(7), "7");
    assert_eq!(i32_to_string(42), "42");
    assert_eq!(i32_to_string(-7), "-7");
    assert_eq!(i32_to_string(1000), "1000");
    assert_eq!(i32_to_string(i32::MAX), "2147483647");
    assert_eq!(i32_to_string(i32::MIN), "-2147483648");
}

#[test]
fn health_reports_healthy() {
    let resp = health_check();
    assert_eq!(resp.status, "healthy");
    assert_eq!(resp.message, "🦀 Rust backend is running perfectly!");
    assert_eq!(resp.version, "1.0.0");
}

#[test]
fn health_timestamp_is_rfc3339() {
    let resp = health_check();
    assert!(is_rfc3339_shaped(&resp.timestamp));
    let parsed = chrono::DateTime::parse_from_rfc3339(&resp.timestamp);
    assert!(parsed.is_ok());
}

#[test]
fn error_response_keeps_its_fields() {
    let err = ErrorResponse::new("bad_input", "something went wrong");
    assert_eq!(err.error, "bad_input");
    assert_eq!(err.message, "something went wrong");
    assert!(is_rfc3339_shaped(&err.timestamp));
    assert!(chrono::DateTime::parse_from_rfc3339(&err.timestamp).is_ok());
}

#[test]
fn rfc3339_shape_accepts_real_timestamps() {
    assert!(is_rfc3339_shaped("1996-12-19T16:39:57-08:00"));
    assert!(is_rfc3339_shaped("2018-01-26T18:30:09.453+00:00"));
}

#[test]
fn rfc3339_shape_rejects_malformed_text() {
    assert!(!is_rfc3339_shaped(""));
    assert!(!is_rfc3339_shaped("not a timestamp"));
    assert!(!is_rfc3339_shaped("1996-12-19 16:39:57-08:00"));
    assert!(!is_rfc3339_shaped("1996/12/19T16:39:57-08:00"));
    assert!(!is_rfc3339_shaped("199X-12-19T16:39:57-08:00"));
    assert!(!is_rfc3339_shaped("1996-12-19T16:39:5"));
}
