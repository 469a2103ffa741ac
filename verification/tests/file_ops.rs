use exiftool_rs_wrapper::file_ops::{
    new_file_name, organize_args, renamed_path, parse_rename_output, rename_arg, rename_preview_args, renamed_file_name,
};
use exiftool_rs_wrapper::{Error, OrganizeOptions, RenamePattern, TagId};

#[test]
fn test_rename_pattern() {
    let pattern = RenamePattern::datetime("%Y-%m-%d");
    assert_eq!(pattern.to_exiftool_format(), "%{DateTimeOriginal,%Y-%m-%d}");

    let pattern = RenamePattern::tag(TagId::new("Make"));
    assert_eq!(pattern.to_exiftool_format(), "%{Make}");

    let pattern = RenamePattern::tag_with_suffix(TagId::new("Model"), "_photo");
    assert_eq!(pattern.to_exiftool_format(), "%{Model}_photo");
}

#[test]
fn test_organize_options() {
    let opts = OrganizeOptions::new("/output")
        .subdir(RenamePattern::datetime("%Y/%m"))
        .filename(RenamePattern::datetime("%d_%H%M%S"))
        .extension("jpg");

    assert_eq!(opts.target_dir, "/output".to_string());
    assert!(opts.subdir_pattern.is_some());
    assert!(opts.extension.is_some());
}

#[test]
fn test_parse_rename_output() {
    let line = "    'photo.jpg' --> '20260101_120000.jpg'";
    assert_eq!(
        parse_rename_output(line),
        Some("20260101_120000.jpg".to_string())
    );

    let line = "    'photo.jpg' --> '/some/path/new_name.jpg'";
    assert_eq!(parse_rename_output(line), Some("new_name.jpg".to_string()));

    assert_eq!(parse_rename_output("    1 image files updated"), None);
    assert_eq!(parse_rename_output(""), None);
}

#[test]
fn rename_report_edge_cases() {
    assert_eq!(parse_rename_output("'a' --> ''"), None);
    assert_eq!(parse_rename_output("'a' --> b.jpg"), None);
    assert_eq!(parse_rename_output("'a' --> '..'"), None);
}

#[test]
fn organize_and_rename_arguments() {
    let opts = OrganizeOptions::new("/out")
        .subdir(RenamePattern::datetime("%Y/%m"))
        .extension("jpg");
    assert_eq!(
        organize_args(&opts, "a.jpg"),
        vec![
            "-FileName</out/%{DateTimeOriginal,%Y/%m}/%{DateTimeOriginal,%Y%m%d_%H%M%S}%%e",
            "-ext",
            "jpg",
            "a.jpg"
        ]
    );
    let plain = OrganizeOptions::new("/out").filename(RenamePattern::custom("%f"));
    assert_eq!(organize_args(&plain, "b.png"), vec!["-FileName</out/%f%%e", "b.png"]);
    let p = RenamePattern::tag(TagId::new("Make"));
    assert_eq!(rename_arg(&p), "-FileName<%{Make}");
    assert_eq!(rename_preview_args(&p, "a.jpg"), vec!["-p %{Make}", "a.jpg"]);
}

#[test]
fn new_name_from_output_or_preview() {
    let lines = vec![
        "    1 image files updated\n".to_string(),
        "'a.jpg' --> 'dir/b.jpg'\n".to_string(),
    ];
    assert_eq!(renamed_file_name(&lines, None, None).unwrap(), "b.jpg");
    let none: Vec<String> = vec!["nothing".to_string()];
    assert_eq!(
        renamed_file_name(&none, Some("  20260101 \n".to_string()), Some("jpg".to_string()))
            .unwrap(),
        "20260101.jpg"
    );
    assert_eq!(
        renamed_file_name(&none, Some("x.tif".to_string()), Some("jpg".to_string())).unwrap(),
        "x.tif"
    );
    match renamed_file_name(&none, Some("   ".to_string()), None) {
        Err(Error::Parse(m)) => assert!(m.contains("ExifTool")),
        other => panic!("expected a parse error, got {:?}", other),
    }
}

#[test]
fn unreadable_report_is_flagged() {
    let lines = vec!["'a.jpg' --> '".to_string()];
    assert!(new_file_name(&lines, None, None).is_none());
    let lines = vec!["'a.jpg' --> 'b.jpg'".to_string(), "x --> '".to_string()];
    assert_eq!(new_file_name(&lines, None, None).unwrap().unwrap(), "b.jpg");
}

#[test]
fn renamed_path_joins_the_directory() {
    let lines = vec!["'a.jpg' --> 'b.jpg'".to_string()];
    assert_eq!(renamed_path("/photos/a.jpg", &lines, None).unwrap().unwrap(), "/photos/b.jpg");
    assert_eq!(renamed_path("a.jpg", &lines, None).unwrap().unwrap(), "b.jpg");
    let none = vec!["1 image files updated".to_string()];
    assert_eq!(
        renamed_path("dir/a.jpg", &none, Some("20260101".to_string())).unwrap().unwrap(),
        "dir/20260101.jpg"
    );
    assert!(renamed_path("a.jpg", &vec!["x --> '".to_string()], None).is_none());
    assert!(matches!(renamed_path("a.jpg", &none, None), Some(Err(Error::Parse(_)))));
}
