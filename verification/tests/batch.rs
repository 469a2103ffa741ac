use exiftool_rs_wrapper::batch::{
    after_command, example_script, join_space, split_quoted, BatchResult, BatchScript,
    ScriptCommand,
};

#[test]
fn test_split_quoted_basic() {
    let result = split_quoted("read photo.jpg Make Model");
    assert_eq!(result, vec!["read", "photo.jpg", "Make", "Model"]);
}

#[test]
fn test_split_quoted_double_quotes() {
    let result = split_quoted(r#"write photo.jpg Copyright "© 2026 Photographer""#);
    assert_eq!(
        result,
        vec!["write", "photo.jpg", "Copyright", "© 2026 Photographer"]
    );
}

#[test]
fn test_split_quoted_single_quotes() {
    let result = split_quoted("write photo.jpg Artist 'John Doe'");
    assert_eq!(result, vec!["write", "photo.jpg", "Artist", "John Doe"]);
}

#[test]
fn test_split_quoted_mixed() {
    let result = split_quoted(r#"print "hello 'world'" end"#);
    assert_eq!(result, vec!["print", "hello 'world'", "end"]);
}

#[test]
fn test_split_quoted_empty_input() {
    let result = split_quoted("");
    assert!(result.is_empty());
}

#[test]
fn test_from_string_with_quotes() {
    let content = r#"write photo.jpg Copyright "© 2026 My Company""#.to_string();
    let script = BatchScript::from_string(content).unwrap();
    assert_eq!(script.commands().len(), 1);
}

#[test]
fn split_then_join_gives_the_words_back() {
    let words = vec!["read".to_string(), "a.jpg".to_string(), "Make".to_string()];
    let joined = join_space(&words);
    assert_eq!(joined, "read a.jpg Make");
    assert_eq!(split_quoted(&joined), words);
}

#[test]
fn unterminated_quote_runs_to_the_end() {
    assert_eq!(split_quoted("print 'a b"), vec!["print", "a b"]);
    assert_eq!(split_quoted("  a   b  "), vec!["a", "b"]);
}

#[test]
fn example_script_parses() {
    let script = BatchScript::from_string(example_script().to_string()).unwrap();
    assert!(script.shows_progress());
    assert!(!script.continues_on_error());
    assert_eq!(script.commands().len(), 6);
    match &script.commands()[1] {
        ScriptCommand::Read { path, tags } => {
            assert_eq!(path, "photo2.jpg");
            assert_eq!(tags.as_ref().unwrap(), &vec!["Make".to_string(), "Model".to_string()]);
        }
        other => panic!("unexpected command {:?}", other),
    }
    match &script.commands()[2] {
        ScriptCommand::Write { path, tag, value } => {
            assert_eq!(path, "photo1.jpg");
            assert_eq!(tag, "Copyright");
            assert_eq!(value, "© 2026 Photographer");
        }
        other => panic!("unexpected command {:?}", other),
    }
}

#[test]
fn unknown_command_is_rejected() {
    let r = BatchScript::from_string("read a.jpg\nfrobnicate x\n".to_string());
    match r {
        Err(e) => assert!(e.to_string().contains("未知命令: frobnicate")),
        Ok(_) => panic!("an unknown command must be refused"),
    }
}

#[test]
fn settings_and_comments() {
    let s = BatchScript::from_string(
        "# comment\n\ncontinue_on_error on\nprogress off\ndelete a.jpg Comment\nbatch a.jpg b.jpg\nprint hi there\n"
            .to_string(),
    )
    .unwrap();
    assert!(s.continues_on_error());
    assert!(!s.shows_progress());
    assert_eq!(s.commands().len(), 3);
}

#[test]
fn tally_of_a_run() {
    let mut r = BatchResult::new();
    assert!(!after_command(&mut r, None, false));
    assert!(!after_command(&mut r, Some("bad".to_string()), true));
    assert!(after_command(&mut r, Some("worse".to_string()), false));
    assert_eq!(r.success, 1);
    assert_eq!(r.failed, 2);
    assert_eq!(r.errors, vec!["bad".to_string(), "worse".to_string()]);
    assert!(!r.is_success());
    let r2 = BatchResult::new();
    assert!(r2.is_success());
}
