use exiftool_rs_wrapper::session::{
    delete_original_args, filter_tag_lines, list_groups_family_arg, merge_args, merge_each,
    parse_word_list, restore_original_args, version_text, with_config_args,
};
use exiftool_rs_wrapper::ExifToolBuilder;

#[test]
fn test_builder_with_config_args() {
    let b = ExifToolBuilder::new().config("/tmp/exiftool-test.config");
    assert_eq!(b.global_args(), vec!["-config", "/tmp/exiftool-test.config"]);
}

#[test]
fn test_with_config_clone_args() {
    let args = with_config_args(&vec![], "/tmp/exiftool-test.config");
    assert_eq!(args, vec!["-config", "/tmp/exiftool-test.config"]);
}

#[test]
fn builder_defaults() {
    let b = ExifToolBuilder::default();
    assert_eq!(b.executable_path(), "exiftool");
    assert_eq!(b.timeout_ms(), 30000);
    assert!(b.global_args().is_empty());
    let b = b.executable("/usr/bin/exiftool").response_timeout(5);
    assert_eq!(b.executable_path(), "/usr/bin/exiftool");
    assert_eq!(b.timeout_ms(), 5);
}

#[test]
fn merging_global_arguments() {
    let g = vec!["-config".to_string(), "c".to_string()];
    assert_eq!(merge_args(&g, &vec!["-ver".to_string()]), vec!["-config", "c", "-ver"]);
    let cmds = vec![vec!["a".to_string()], vec![]];
    assert_eq!(
        merge_each(&g, &cmds),
        vec![vec!["-config", "c", "a"], vec!["-config", "c"]]
    );
}

#[test]
fn listings() {
    assert_eq!(parse_word_list("  EXIF  IPTC\n XMP \t"), vec!["EXIF", "IPTC", "XMP"]);
    assert!(parse_word_list(" \n ").is_empty());
    assert_eq!(version_text(" 13.10\n"), "13.10");
    let lines = vec![
        "Available tags:\n".to_string(),
        "  -- Command-line options --\n".to_string(),
        "  Make Model\n".to_string(),
        "   \n".to_string(),
        "See Command-line docs\n".to_string(),
    ];
    assert_eq!(filter_tag_lines(&lines), vec!["Available tags:", "Make Model"]);
    assert_eq!(list_groups_family_arg(0), "-listg");
    assert_eq!(list_groups_family_arg(2), "-listg2");
    assert_eq!(delete_original_args("a.jpg", true), vec!["-delete_original!", "a.jpg"]);
    assert_eq!(delete_original_args("a.jpg", false), vec!["-delete_original", "a.jpg"]);
    assert_eq!(restore_original_args("a.jpg"), vec!["-restore_original", "a.jpg"]);
}
