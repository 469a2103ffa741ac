use exiftool_rs_wrapper::{FormattedOutput, OutputFormat, ReadOptions};

#[test]
fn test_output_format() {
    assert_eq!(OutputFormat::Json.arg(), "-json");
    assert_eq!(OutputFormat::Xml.arg(), "-X");
    assert_eq!(OutputFormat::Csv.arg(), "-csv");
}

#[test]
fn test_read_options() {
    let opts = ReadOptions::new()
        .format(OutputFormat::Json)
        .tag("Make")
        .tag("Model")
        .verbose(2)
        .raw(true);

    assert_eq!(opts.format, OutputFormat::Json);
    assert_eq!(opts.specific_tags.len(), 2);
    assert_eq!(opts.verbose, Some(2));
    assert!(opts.raw_values);
}

#[test]
fn test_read_options_build_args() {
    let opts = ReadOptions::new()
        .format(OutputFormat::Json)
        .tag("Make")
        .raw(true);

    let args = opts.build_args(&["test.jpg".to_string()]);

    assert!(args.contains(&"-json".to_string()));
    assert!(args.contains(&"-Make".to_string()));
    assert!(args.contains(&"-n".to_string()));
    assert!(args.contains(&"test.jpg".to_string()));
}

#[test]
fn test_build_args_split_options() {
    let opts = ReadOptions::new()
        .format(OutputFormat::Json)
        .lang("zh-CN")
        .charset("UTF8")
        .extension("jpg")
        .condition("$ImageWidth > 1000");

    let args = opts.build_args(&["test.jpg".to_string()]);

    assert!(args.windows(2).any(|w| w == ["-lang", "zh-CN"]));
    assert!(args.windows(2).any(|w| w == ["-charset", "UTF8"]));
    assert!(args.windows(2).any(|w| w == ["-ext", "jpg"]));
    assert!(args.windows(2).any(|w| w == ["-if", "$ImageWidth > 1000"]));
}

#[test]
fn read_arguments_in_order() {
    let opts = ReadOptions::new()
        .format(OutputFormat::Csv)
        .table(true)
        .hex(true)
        .verbose(7)
        .recursive(true)
        .exclude("Comment")
        .tag("Make");
    let args = opts.build_args(&["a.jpg".to_string(), "b.jpg".to_string()]);
    assert_eq!(
        args,
        vec!["-csv", "-T", "-H", "-v5", "-r", "--Comment", "-Make", "a.jpg", "b.jpg"]
    );
    assert_eq!(ReadOptions::default().build_args(&[]), vec!["-json"]);
}

#[test]
fn every_format_option() {
    assert_eq!(OutputFormat::Tsv.arg(), "-t");
    assert_eq!(OutputFormat::Html.arg(), "-h");
    assert_eq!(OutputFormat::Text.arg(), "-s");
    assert_eq!(OutputFormat::Struct.arg(), "-struct");
    assert_eq!(OutputFormat::default(), OutputFormat::Json);
    let out = FormattedOutput { format: OutputFormat::Text, content: "FileName: a".to_string() };
    assert_eq!(out.text(), "FileName: a");
}

#[test]
fn exclusion_is_not_an_assignment() {
    let o = ReadOptions::new().exclude("MakerNotes");
    assert_eq!(o.build_args(&["a.jpg".to_string()]), vec!["-json", "--MakerNotes", "a.jpg"]);
}
