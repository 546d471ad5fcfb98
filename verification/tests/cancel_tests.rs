use qubit_command::helpers::cancel_result;
use qubit_command::IoFailure;
use qubit_command::IoFailureKind;

/// Unwraps a value whose failure side has no `Debug` rendering.
trait Must<T> {
    fn must(self, message: &str) -> T;
}

impl<T> Must<T> for Option<T> {
    fn must(self, message: &str) -> T {
        match self {
            Some(value) => value,
            None => panic!("{message}"),
        }
    }
}

impl<T, E> Must<T> for Result<T, E> {
    fn must(self, message: &str) -> T {
        match self {
            Ok(value) => value,
            Err(_) => panic!("{message}"),
        }
    }
}


fn os_failure(code: i32) -> IoFailure {
    IoFailure::new(IoFailureKind::Other, Some(code), format!("os error {code}"))
}

#[test]
fn test_cancel_result_accepts_nonzero_result() {
    let result = cancel_result(1, os_failure(5));

    assert!(result.is_ok());
}

#[test]
fn test_cancel_result_accepts_error_not_found() {
    let result = cancel_result(0, os_failure(1168));

    assert!(result.is_ok());
}

#[test]
fn test_cancel_result_preserves_other_errors() {
    let result = cancel_result(0, os_failure(5)).err().must("other cancellation errors should be preserved");

    assert_eq!(result.raw_os_error(), Some(5));
}
