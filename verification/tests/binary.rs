use exiftool_rs_wrapper::binary::{binary_write_args_for, read_binary_args};
use exiftool_rs_wrapper::{BinaryTag, BinaryWriteBuilder};

#[test]
fn test_binary_tag() {
    assert_eq!(BinaryTag::Thumbnail.tag_name(), "ThumbnailImage");
    assert_eq!(BinaryTag::Preview.tag_name(), "PreviewImage");

    let tag: BinaryTag = "ThumbnailImage".into();
    assert_eq!(tag, BinaryTag::Thumbnail);
}

#[test]
fn other_binary_tags_keep_their_name() {
    let tag: BinaryTag = "JpgFromRaw".into();
    assert_eq!(tag, BinaryTag::JpegPreview);
    let tag: BinaryTag = "OtherImage".into();
    assert_eq!(tag, BinaryTag::Other("OtherImage"));
    assert_eq!(tag.tag_name(), "OtherImage");
}

#[test]
fn binary_builder_and_arguments() {
    let b = BinaryWriteBuilder::new("a.jpg")
        .thumbnail(vec![1, 2])
        .preview(vec![3])
        .overwrite_original(true)
        .backup(false);
    assert_eq!(b.tags(), vec![BinaryTag::Thumbnail, BinaryTag::Preview]);
    let files = vec![
        (BinaryTag::Thumbnail, "/tmp/t1".to_string()),
        (BinaryTag::Preview, "/tmp/t2".to_string()),
    ];
    let args = binary_write_args_for(b.overwrite_original, b.backup, &files, "a.jpg");
    assert_eq!(
        args,
        vec![
            "-overwrite_original",
            "-overwrite_original_in_place",
            "-ThumbnailImage=/tmp/t1",
            "-PreviewImage=/tmp/t2",
            "a.jpg"
        ]
    );
    assert_eq!(
        read_binary_args(BinaryTag::Preview, "/tmp/out.dat", "a.jpg"),
        vec!["-b", "-PreviewImage", "-w", "/tmp/out.dat", "a.jpg"]
    );
}
