use exiftool_rs_wrapper::process::{
    close_lines, execute_lines, is_ready_line, launch_args, version_request, ExifToolBuilder,
    ResponseReader,
};
use exiftool_rs_wrapper::{CommandId, CommandRequest, Response};

#[test]
fn test_response() {
    let lines = vec!["Line 1".to_string(), "Line 2".to_string()];
    let response = Response::new(lines);

    assert_eq!(response.lines().len(), 2);
    assert_eq!(response.text(), "Line 1Line 2");
    assert!(!response.is_error());
}

#[test]
fn test_response_error() {
    let lines = vec!["Error: Something went wrong".to_string()];
    let response = Response::new(lines);

    assert!(response.is_error());
    assert!(response.error_message().is_some());
}

#[test]
fn test_response_warning_not_error() {
    let response = Response::new(vec!["Warning: test".to_string()]);
    assert!(!response.is_error());
}

#[test]
fn first_error_line_is_the_message() {
    let response = Response::new(vec![
        "ok\n".to_string(),
        "Error: first\n".to_string(),
        "Error: second\n".to_string(),
    ]);
    assert_eq!(response.error_message(), Some("Error: first\n".to_string()));
}

#[test]
fn reader_stops_at_ready() {
    let mut r = ResponseReader::new();
    assert!(!r.feed("a\n".to_string()));
    assert!(!r.feed("b\n".to_string()));
    assert!(r.feed("  {ready}  \n".to_string()));
    let resp = r.finish();
    assert_eq!(resp.lines(), &vec!["a\n".to_string(), "b\n".to_string()]);
    assert!(is_ready_line("{ready}\r\n"));
    assert!(!is_ready_line("{ready}x"));
}

#[test]
fn command_framing() {
    let req = CommandRequest::new(Some(CommandId::new(7)), vec!["-ver".to_string()]);
    assert_eq!(req.lines(), vec!["-ver", "-execute7"]);
    assert_eq!(req.ready_marker(), "{ready7}");
    let plain = CommandRequest::new(None, vec!["-ver".to_string()]);
    assert_eq!(plain.lines(), vec!["-ver", "-execute"]);
    assert_eq!(plain.ready_marker(), "{ready}");
    assert_eq!(execute_lines(&vec!["-a".to_string()]), vec!["-a", "-execute"]);
    assert_eq!(launch_args(), vec!["-stay_open", "True", "-@", "-"]);
    assert_eq!(close_lines(), vec!["-stay_open", "False", "-execute"]);
    assert_eq!(version_request(), vec!["-ver", "-execute"]);
}

#[test]
fn process_builder_executable() {
    assert_eq!(ExifToolBuilder::new().executable_path(), "exiftool");
    assert_eq!(
        ExifToolBuilder::new().executable("/opt/et").executable_path(),
        "/opt/et"
    );
}

#[test]
fn numbered_ready_markers_end_a_response() {
    assert!(is_ready_line("{ready7}\n"));
    assert!(is_ready_line("  {ready123} "));
    assert!(is_ready_line("{ready}"));
    assert!(!is_ready_line("{readyx}"));
    assert!(!is_ready_line("{ready7"));
    assert!(!is_ready_line("{ready7}x"));
    let mut r = ResponseReader::new();
    assert!(!r.feed("line\n".to_string()));
    assert!(r.feed("{ready12}\n".to_string()));
    assert_eq!(r.finish().lines(), &vec!["line\n".to_string()]);
}
