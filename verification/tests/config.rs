use exiftool_rs_wrapper::config::{
    compare_metadata, hex_dump_args, hex_dump_tag_args, verbose_dump_args,
};
use exiftool_rs_wrapper::{DiffResult, HexDumpOptions, MetadataEntry, TagId, VerboseOptions};

#[test]
fn test_diff_result() {
    let mut diff = DiffResult::new();
    assert!(diff.is_identical);

    diff.add_source_only("Make");
    assert!(!diff.is_identical);
    assert_eq!(diff.source_only.len(), 1);

    diff.add_different("Model", "Canon", "Nikon");
    assert_eq!(diff.different.len(), 1);
}

#[test]
fn test_hex_dump_options() {
    let opts = HexDumpOptions::new().start(100);

    assert_eq!(opts.start_offset, Some(100));
}

#[test]
fn test_verbose_options() {
    let opts = VerboseOptions::new(3);
    let args = opts.args();
    assert!(args.contains(&"-v3".to_string()));

    let opts = VerboseOptions::new(2).html();
    let args = opts.args();
    assert!(args.contains(&"-v2".to_string()));
    assert!(args.contains(&"-htmlDump".to_string()));
}

fn entry(tag: &str, value: &str) -> MetadataEntry {
    MetadataEntry { tag: tag.to_string(), value: value.to_string(), text: value.to_string() }
}

#[test]
fn comparing_two_metadata_sets() {
    let a = vec![entry("Artist", "Alice"), entry("Make", "Canon"), entry("ISO", "100")];
    let b = vec![entry("Artist", "Bob"), entry("ISO", "100"), entry("Model", "X")];
    let d = compare_metadata(&a, &b);
    assert!(!d.is_identical);
    assert_eq!(d.source_only, vec!["Make".to_string()]);
    assert_eq!(d.target_only, vec!["Model".to_string()]);
    assert_eq!(
        d.different,
        vec![("Artist".to_string(), "Alice".to_string(), "Bob".to_string())]
    );
}

#[test]
fn comparing_with_itself_is_identical() {
    let a = vec![entry("Artist", "Alice"), entry("Make", "Canon")];
    let d = compare_metadata(&a, &a);
    assert!(d.is_identical);
    assert!(d.source_only.is_empty() && d.target_only.is_empty() && d.different.is_empty());
}

#[test]
fn verbosity_is_capped_and_dump_arguments() {
    assert_eq!(VerboseOptions::new(9).level, 5);
    assert_eq!(VerboseOptions::new(4).args(), vec!["-v4"]);
    assert_eq!(
        verbose_dump_args(&VerboseOptions::new(1).html(), "a.jpg"),
        vec!["-v1", "-htmlDump", "a.jpg"]
    );
    assert_eq!(hex_dump_args(&HexDumpOptions::new(), "a.jpg"), vec!["-htmlDump", "a.jpg"]);
    assert_eq!(
        hex_dump_args(&HexDumpOptions::new().start(4096), "a.jpg"),
        vec!["-htmlDump4096", "a.jpg"]
    );
    assert_eq!(
        hex_dump_tag_args(TagId::new("Make"), "a.jpg"),
        vec!["-H", "-Make", "a.jpg"]
    );
}
