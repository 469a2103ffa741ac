use exiftool_rs_wrapper::repl::{parse_repl_command, ReplCommand, ReplSettings};

#[test]
fn shell_commands() {
    assert!(parse_repl_command("QUIT").is_quit());
    assert!(parse_repl_command("  q ").is_quit());
    assert!(matches!(parse_repl_command(""), ReplCommand::Empty));
    assert!(matches!(parse_repl_command("Help"), ReplCommand::Help));
    match parse_repl_command("r a.jpg Make extra") {
        ReplCommand::Read { path, tag } => {
            assert_eq!(path, "a.jpg");
            assert_eq!(tag, Some("Make".to_string()));
        }
        other => panic!("{:?}", other),
    }
    match parse_repl_command("write a.jpg Artist John   Doe") {
        ReplCommand::Write { path, tag, value } => {
            assert_eq!((path.as_str(), tag.as_str(), value.as_str()), ("a.jpg", "Artist", "John Doe"));
        }
        other => panic!("{:?}", other),
    }
    match parse_repl_command("write a.jpg Artist") {
        ReplCommand::Usage(m) => assert_eq!(m, "用法: write <文件路径> <标签名> <值>"),
        other => panic!("{:?}", other),
    }
    match parse_repl_command("d a.jpg") {
        ReplCommand::Usage(m) => assert_eq!(m, "用法: delete <文件路径> <标签名>"),
        other => panic!("{:?}", other),
    }
    match parse_repl_command("batch a.jpg b.jpg") {
        ReplCommand::Batch { paths } => assert_eq!(paths, vec!["a.jpg", "b.jpg"]),
        other => panic!("{:?}", other),
    }
    match parse_repl_command("Frob x") {
        ReplCommand::Unknown(c) => assert_eq!(c, "frob"),
        other => panic!("{:?}", other),
    }
    assert!(matches!(parse_repl_command("t"), ReplCommand::Tags));
    assert!(matches!(parse_repl_command("v"), ReplCommand::Verbose));
    assert!(matches!(parse_repl_command("version"), ReplCommand::Version));
    let s = ReplSettings::new().verbose(true).show_help_on_start(false);
    assert!(s.verbose && !s.show_help_on_start);
}

#[test]
fn verbose_command_toggles() {
    let s = ReplSettings::new();
    let v = parse_repl_command("Verbose");
    let s1 = s.after(&v);
    assert!(s1.verbose && s1.show_help_on_start);
    let s2 = s1.after(&parse_repl_command("v"));
    assert!(!s2.verbose);
    let s3 = s2.after(&parse_repl_command("help"));
    assert!(!s3.verbose && s3.show_help_on_start);
}
