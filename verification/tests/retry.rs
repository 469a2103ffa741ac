use exiftool_rs_wrapper::retry::{next_attempt, should_retry};
use exiftool_rs_wrapper::{BatchResult, Error, IoFailure, Recoverable};

#[test]
fn test_batch_result() {
    let mut result: BatchResult<i32, String> = BatchResult::new();

    result.add_success(1);
    result.add_success(2);
    result.add_failure("error".to_string());

    assert_eq!(result.total, 3);
    assert_eq!(result.successes.len(), 2);
    assert_eq!(result.failures.len(), 1);
    assert!(!result.is_complete());
    let success_rate = (result.successes.len() as f64 / result.total as f64) * 100.0;
    assert!((success_rate - 66.66666666666667).abs() < 1e-10);
}

#[test]
fn test_recoverable() {
    let timeout_err = Error::Timeout;
    assert!(timeout_err.is_recoverable());
    assert!(timeout_err.recovery_suggestion().is_some());

    let tag_err = Error::TagNotFound("test".to_string());
    assert!(!tag_err.is_recoverable());
}

#[test]
fn suggestions_per_error() {
    let missing = Error::Io(IoFailure { not_found: true, message: "x".to_string() });
    assert_eq!(missing.recovery_suggestion(), Some("请检查文件路径是否正确".to_string()));
    let other_io = Error::Io(IoFailure { not_found: false, message: "x".to_string() });
    assert_eq!(other_io.recovery_suggestion(), None);
    assert!(other_io.is_recoverable());
    assert_eq!(
        Error::ExifToolNotFound.recovery_suggestion(),
        Some("请安装 ExifTool 并添加到 PATH".to_string())
    );
    assert!(!Error::ExifToolNotFound.is_recoverable());
    assert!(Error::MutexPoisoned.is_recoverable());
    assert!(Error::process("x").is_recoverable());
    assert_eq!(Error::parse("x").recovery_suggestion(), None);
}

#[test]
fn retries_are_bounded() {
    let e = Error::Timeout;
    assert!(should_retry(2, 0, &e));
    assert!(should_retry(2, 1, &e));
    assert!(!should_retry(2, 2, &e));
    assert_eq!(next_attempt(2, 1, &e), Some(2));
    assert_eq!(next_attempt(2, 2, &e), None);
    assert_eq!(next_attempt(5, 0, &Error::TagNotFound("t".to_string())), None);
}

#[test]
fn batch_result_complete() {
    let mut r: BatchResult<u8, u8> = BatchResult::default();
    assert!(r.is_complete());
    r.add_success(1);
    assert!(r.is_complete());
    assert_eq!(r.total, 1);
}
