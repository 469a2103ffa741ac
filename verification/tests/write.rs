use exiftool_rs_wrapper::write::parse_write_response;
use exiftool_rs_wrapper::{Error, Response, WriteBuilder, WriteMode, WriteResult};

#[test]
fn test_write_builder_args() {
    let args = WriteBuilder::new("photo.jpg")
        .write_mode(WriteMode::Create)
        .password("p")
        .separator(",")
        .api_option("QuickTimeUTC", Some("1"))
        .user_param("k", Some("v"))
        .condition("$FileType eq 'JPEG'")
        .delete("Comment")
        .tag("Artist", "Alice")
        .build_args();

    assert!(args.windows(2).any(|w| w == ["-wm", "c"]));
    assert!(args.windows(2).any(|w| w == ["-password", "p"]));
    assert!(args.windows(2).any(|w| w == ["-sep", ","]));
    assert!(args.windows(2).any(|w| w == ["-api", "QuickTimeUTC=1"]));
    assert!(args.windows(2).any(|w| w == ["-userParam", "k=v"]));
    assert!(args.windows(2).any(|w| w == ["-if", "$FileType eq 'JPEG'"]));
    assert!(args.iter().any(|a| a == "-Comment="));
    assert!(args.iter().any(|a| a == "-Artist=Alice"));
}

#[test]
fn test_write_result_parsing() {
    let result = WriteResult {
        path: "test.jpg".to_string(),
        lines: vec!["    1 image files updated".to_string()],
    };

    assert!(result.is_success());
    assert_eq!(result.updated_count(), Some(1));
}

#[test]
fn test_tag_write_operators() {
    let args = WriteBuilder::new("photo.jpg").tag_append("Keywords", "landscape").build_args();
    assert!(args.iter().any(|a| a == "-Keywords+=landscape"), "{:?}", args);

    let args = WriteBuilder::new("photo.jpg").tag_remove("Keywords", "old").build_args();
    assert!(args.iter().any(|a| a == "-Keywords-=old"), "{:?}", args);

    let args = WriteBuilder::new("photo.jpg").tag_prepend("Keywords", "important").build_args();
    assert!(args.iter().any(|a| a == "-Keywords^=important"), "{:?}", args);
}

#[test]
fn test_tag_from_file() {
    let args = WriteBuilder::new("photo.jpg")
        .tag_from_file("ThumbnailImage", "thumb.jpg")
        .build_args();
    assert!(args.iter().any(|a| a == "-ThumbnailImage<=thumb.jpg"), "{:?}", args);

    let args = WriteBuilder::new("photo.jpg")
        .tag_append_from_file("Comment", "comment.txt")
        .build_args();
    assert!(args.iter().any(|a| a == "-Comment+<=comment.txt"), "{:?}", args);
}

#[test]
fn test_global_time_shift() {
    let args = WriteBuilder::new("photo.jpg").global_time_shift("+02:00").build_args();

    assert!(
        args.windows(2).any(|w| w == ["-globalTimeShift", "+02:00"]),
        "{:?}",
        args
    );
}

#[test]
fn later_value_of_a_tag_wins() {
    let args = WriteBuilder::new("a.jpg")
        .tag("Artist", "Alice")
        .tag("Copyright", "C")
        .tag("Artist", "Bob")
        .build_args();
    assert_eq!(args, vec!["-Artist=Bob", "-Copyright=C", "a.jpg"]);
}

#[test]
fn write_result_counts() {
    let r = WriteResult {
        path: "a.jpg".to_string(),
        lines: vec!["    0 image files updated".to_string(), "    1 image files unchanged".to_string()],
    };
    assert!(r.is_success());
    assert_eq!(r.updated_count(), Some(0));
    let r = WriteResult { path: "a.jpg".to_string(), lines: vec!["nothing".to_string()] };
    assert!(!r.is_success());
    assert_eq!(r.updated_count(), None);
    let r = WriteResult {
        path: "a.jpg".to_string(),
        lines: vec!["99999999999 image files updated".to_string()],
    };
    assert_eq!(r.updated_count(), None);
}

#[test]
fn backup_candidate_path() {
    let r = WriteResult { path: "dir/a.jpg".to_string(), lines: vec![] };
    assert_eq!(r.backup_candidate(), "dir/a.jpg_original");
    let r = WriteResult { path: "photo".to_string(), lines: vec![] };
    assert_eq!(r.backup_candidate(), "photo_original");
}

#[test]
fn write_response_outcomes() {
    let ok = parse_write_response(
        Response::new(vec!["    1 image files updated\n".to_string()]),
        "a.jpg".to_string(),
    )
    .unwrap();
    assert_eq!(ok.path, "a.jpg");
    assert_eq!(ok.lines, vec!["    1 image files updated\n".to_string()]);
    let err = parse_write_response(
        Response::new(vec!["Warning: w\n".to_string(), "Error: e\n".to_string()]),
        "a.jpg".to_string(),
    );
    match err {
        Err(Error::Process { message, exit_code }) => {
            assert_eq!(message, "Error: e\n");
            assert_eq!(exit_code, None);
        }
        _ => panic!("expected a process error"),
    }
}
