use exiftool_rs_wrapper::QueryBuilder;

#[test]
fn test_query_builder_args() {
    let args = QueryBuilder::new("photo.jpg")
        .charset("utf8")
        .lang("zh")
        .coord_format("%.6f")
        .date_format("%Y-%m-%d")
        .print_format("$FileName")
        .separator(",")
        .api_option("QuickTimeUTC", Some("1"))
        .user_param("k", Some("v"))
        .password("p")
        .build_args(true);

    assert!(args.windows(2).any(|w| w == ["-charset", "utf8"]));
    assert!(args.windows(2).any(|w| w == ["-lang", "zh"]));
    assert!(args.windows(2).any(|w| w == ["-c", "%.6f"]));
    assert!(args.windows(2).any(|w| w == ["-d", "%Y-%m-%d"]));
    assert!(args.windows(2).any(|w| w == ["-p", "$FileName"]));
    assert!(args.windows(2).any(|w| w == ["-sep", ","]));
    assert!(args.windows(2).any(|w| w == ["-api", "QuickTimeUTC=1"]));
    assert!(args.windows(2).any(|w| w == ["-userParam", "k=v"]));
    assert!(args.windows(2).any(|w| w == ["-password", "p"]));
}

#[test]
fn test_csv_delimiter() {
    let args = QueryBuilder::new("photo.jpg").csv_delimiter(",").build_args(false);

    assert!(
        args.windows(2).any(|w| w == ["-csvDelim", ","]),
        "{:?}",
        args
    );
}

#[test]
fn test_unknown_binary() {
    let args = QueryBuilder::new("photo.jpg").unknown_binary().build_args(false);

    assert!(args.iter().any(|a| a == "-U"), "{:?}", args);
}

#[test]
fn test_recursive_hidden() {
    let args = QueryBuilder::new("/photos").recursive_hidden().build_args(false);

    assert!(args.iter().any(|a| a == "-r."), "{:?}", args);
}

#[test]
fn test_source_file() {
    let args = QueryBuilder::new("photo.jpg").source_file("%d%f.xmp").build_args(false);

    assert!(
        args.windows(2).any(|w| w == ["-srcfile", "%d%f.xmp"]),
        "{:?}",
        args
    );
}

#[test]
fn test_args_file() {
    let args = QueryBuilder::new("photo.jpg").args_file("/tmp/args.txt").build_args(false);
    assert!(
        args.windows(2).any(|w| w[0] == "-@" && w[1] == "/tmp/args.txt"),
        "{:?}",
        args
    );
}

#[test]
fn query_frame_json_first_path_last() {
    let args = QueryBuilder::new("x.jpg").tag("Make").exclude("Comment").build_args(true);
    assert_eq!(args.first().unwrap(), "-json");
    assert_eq!(args.last().unwrap(), "x.jpg");
    assert!(args.contains(&"-Make".to_string()));
    assert!(args.contains(&"--Comment".to_string()));
    let args = QueryBuilder::new("x.jpg").build_args(false);
    assert_eq!(args, vec!["x.jpg"]);
}

#[test]
fn progress_without_interval() {
    let args = QueryBuilder::new("/photos").recursive(true).progress(None, Some("Scan")).build_args(false);
    assert_eq!(args, vec!["-r", "-progress:Scan", "/photos"]);
    let args = QueryBuilder::new("/photos").progress(None, None).build_args(false);
    assert_eq!(args, vec!["-progress", "/photos"]);
    let args = QueryBuilder::new("/photos").progress(Some(10), Some("P")).build_args(false);
    assert_eq!(args, vec!["-progress10:P", "/photos"]);
}
