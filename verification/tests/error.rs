use exiftool_rs_wrapper::{Error, IoFailure};

#[test]
fn test_error_creation() {
    let err = Error::process("test error");
    assert!(matches!(err, Error::Process { .. }));
    assert!(err.to_string().contains("test error"));
}

#[test]
fn error_messages() {
    let io = Error::Io(IoFailure { not_found: true, message: "gone".to_string() });
    assert_eq!(io.to_string(), "IO error: gone");
    assert_eq!(
        Error::process_with_code("boom", 2).to_string(),
        "ExifTool process error: boom"
    );
    assert_eq!(Error::parse("bad json").to_string(), "Parse error: bad json");
    assert_eq!(Error::TagNotFound("Make".to_string()).to_string(), "Tag not found: Make");
    assert_eq!(Error::invalid_arg("x").to_string(), "Invalid argument: x");
    assert_eq!(
        Error::ExifToolNotFound.to_string(),
        "ExifTool not found in PATH. Please install ExifTool: https://exiftool.org/"
    );
    assert_eq!(Error::MutexPoisoned.to_string(), "Internal mutex poisoned");
    assert_eq!(
        Error::Serialization("eof".to_string()).to_string(),
        "Serialization error: eof"
    );
    assert_eq!(Error::Timeout.to_string(), "Operation timed out");
    match Error::process_with_code("boom", 2) {
        Error::Process { exit_code, .. } => assert_eq!(exit_code, Some(2)),
        _ => panic!("expected a process error"),
    }
}
