//! Binary tags: thumbnails, previews and other embedded images.

use vstd::prelude::*;
use crate::args::push_arg;
use crate::text::{concat2, str_eq, views};

verus! {

/// A tag that holds binary data.
#[derive(Debug, Clone, Copy, PartialEq, Eq)]
pub enum BinaryTag {
    Thumbnail,
    Preview,
    JpegPreview,
    Other(&'static str),
}

/// The ExifTool name of a binary tag.
pub open spec fn binary_tag_name(t: BinaryTag) -> Seq<char> {
    match t {
        BinaryTag::Thumbnail => "ThumbnailImage"@,
        BinaryTag::Preview => "PreviewImage"@,
        BinaryTag::JpegPreview => "JpgFromRaw"@,
        BinaryTag::Other(name) => name@,
    }
}

/// The binary tag that a name denotes: one of the three known images, or
/// any other tag by its name.
pub open spec fn binary_tag_of(name: &'static str) -> BinaryTag {
    if name@ == "ThumbnailImage"@ {
        BinaryTag::Thumbnail
    } else if name@ == "PreviewImage"@ {
        BinaryTag::Preview
    } else if name@ == "JpgFromRaw"@ {
        BinaryTag::JpegPreview
    } else {
        BinaryTag::Other(name)
    }
}

impl BinaryTag {
    /// The ExifTool name of the tag.
    pub fn tag_name(&self) -> (s: &str)
        ensures
            s@ == binary_tag_name(*self),
    {
        match self {
            BinaryTag::Thumbnail => "ThumbnailImage",
            BinaryTag::Preview => "PreviewImage",
            BinaryTag::JpegPreview => "JpgFromRaw",
            BinaryTag::Other(name) => name,
        }
    }

    /// The tag that a name denotes.
    pub fn from_name(name: &'static str) -> (t: Self)
        ensures
            t == binary_tag_of(name),
    {
        if str_eq(name, "ThumbnailImage") {
            BinaryTag::Thumbnail
        } else if str_eq(name, "PreviewImage") {
            BinaryTag::Preview
        } else if str_eq(name, "JpgFromRaw") {
            BinaryTag::JpegPreview
        } else {
            BinaryTag::Other(name)
        }
    }
}

impl From<&'static str> for BinaryTag {
    fn from(name: &'static str) -> (t: Self) {
        BinaryTag::from_name(name)
    }
}

impl vstd::std_specs::convert::FromSpecImpl<&'static str> for BinaryTag {
    open spec fn obeys_from_spec() -> bool {
        true
    }

    open spec fn from_spec(name: &'static str) -> BinaryTag {
        binary_tag_of(name)
    }
}

/// Reading a known image's name gives the image back, and the name of
/// any tag read back gives the same name.
pub proof fn law_binary_tag_name_roundtrip(name: &'static str)
    ensures
        binary_tag_name(binary_tag_of(name)) == name@,
{
}

/// A pending write of binary tags into one file.
#[derive(Debug, Clone)]
pub struct BinaryWriteBuilder {
    pub path: String,
    pub binary_tags: Vec<(BinaryTag, Vec<u8>)>,
    pub overwrite_original: bool,
    pub backup: bool,
}

impl BinaryWriteBuilder {
    /// A write into `path` of no tags, keeping a backup.
    pub fn new(path: &str) -> (b: Self)
        ensures
            b.path@ == path@,
            b.binary_tags@.len() == 0,
            !b.overwrite_original,
            b.backup,
    {
        BinaryWriteBuilder {
            path: crate::text::owned(path),
            binary_tags: Vec::new(),
            overwrite_original: false,
            backup: true,
        }
    }

    /// Adds a tag and its data.
    fn with_tag(self, tag: BinaryTag, data: Vec<u8>) -> (b: Self)
        ensures
            b.binary_tags@ == self.binary_tags@.push((tag, data)),
            b.path == self.path,
            b.overwrite_original == self.overwrite_original,
            b.backup == self.backup,
    {
        let mut b = self;
        b.binary_tags.push((tag, data));
        b
    }

    /// Sets the thumbnail image.
    pub fn thumbnail(self, data: Vec<u8>) -> (b: Self)
        ensures
            b == (BinaryWriteBuilder {
                binary_tags: b.binary_tags,
                ..self
            }),
            b.binary_tags@ == self.binary_tags@.push((BinaryTag::Thumbnail, data)),
    {
        self.with_tag(BinaryTag::Thumbnail, data)
    }

    /// Sets the preview image.
    pub fn preview(self, data: Vec<u8>) -> (b: Self)
        ensures
            b == (BinaryWriteBuilder {
                binary_tags: b.binary_tags,
                ..self
            }),
            b.binary_tags@ == self.binary_tags@.push((BinaryTag::Preview, data)),
    {
        self.with_tag(BinaryTag::Preview, data)
    }

    /// Sets the JPEG preview of a raw image.
    pub fn jpeg_preview(self, data: Vec<u8>) -> (b: Self)
        ensures
            b == (BinaryWriteBuilder {
                binary_tags: b.binary_tags,
                ..self
            }),
            b.binary_tags@ == self.binary_tags@.push((BinaryTag::JpegPreview, data)),
    {
        self.with_tag(BinaryTag::JpegPreview, data)
    }

    /// Whether to overwrite the original file.
    pub fn overwrite_original(self, yes: bool) -> (b: Self)
        ensures
            b == (BinaryWriteBuilder { overwrite_original: yes, ..self }),
    {
        BinaryWriteBuilder { overwrite_original: yes, ..self }
    }

    /// Whether to keep a backup.
    pub fn backup(self, yes: bool) -> (b: Self)
        ensures
            b == (BinaryWriteBuilder { backup: yes, ..self }),
    {
        BinaryWriteBuilder { backup: yes, ..self }
    }

    /// The tags to write, in order.
    pub fn tags(&self) -> (r: Vec<BinaryTag>)
        ensures
            r@ == self.binary_tags@.map_values(|e: (BinaryTag, Vec<u8>)| e.0),
    {
        let mut r: Vec<BinaryTag> = Vec::new();
        let mut i: usize = 0;
        while i < self.binary_tags.len()
            invariant
                i <= self.binary_tags@.len(),
                r@ == self.binary_tags@.take(i as int).map_values(|e: (BinaryTag, Vec<u8>)| e.0),
            decreases self.binary_tags@.len() - i,
        {
            r.push(self.binary_tags[i].0);
            assert(self.binary_tags@.take(i + 1).map_values(|e: (BinaryTag, Vec<u8>)| e.0)
                =~= self.binary_tags@.take(i as int).map_values(|e: (BinaryTag, Vec<u8>)| e.0).push(
                self.binary_tags@[i as int].0,
            ));
            i = i + 1;
        }
        assert(self.binary_tags@.take(self.binary_tags@.len() as int) =~= self.binary_tags@);
        r
    }
}

/// The outcome of a binary write: the file and the tags written, in order.
#[derive(Debug, Clone)]
pub struct BinaryWriteResult {
    pub path: String,
    pub written_tags: Vec<BinaryTag>,
}

/// The arguments that set a binary tag from a file: `-TAG=FILE`.
pub open spec fn binary_assign_args(tags: Seq<(BinaryTag, Seq<char>)>) -> Seq<Seq<char>> {
    tags.map_values(|e: (BinaryTag, Seq<char>)| "-"@ + binary_tag_name(e.0) + "="@ + e.1)
}

/// The arguments of a binary write, given the file that holds each tag's
/// data: the overwrite options, one assignment per tag and the target.
pub open spec fn binary_write_args(
    overwrite_original: bool,
    backup: bool,
    tags: Seq<(BinaryTag, Seq<char>)>,
    path: Seq<char>,
) -> Seq<Seq<char>> {
    crate::args::flag(overwrite_original, "-overwrite_original"@) + crate::args::flag(
        !backup,
        "-overwrite_original_in_place"@,
    ) + binary_assign_args(tags) + seq![path]
}

/// The views of tags paired with data files.
pub open spec fn tag_file_views(v: Seq<(BinaryTag, String)>) -> Seq<(BinaryTag, Seq<char>)> {
    v.map_values(|e: (BinaryTag, String)| (e.0, e.1@))
}

/// The arguments of a binary write whose data for each tag stands in the
/// file paired with it.
pub fn binary_write_args_for(
    overwrite_original: bool,
    backup: bool,
    tag_files: &Vec<(BinaryTag, String)>,
    path: &str,
) -> (r: Vec<String>)
    ensures
        views(r@) == binary_write_args(overwrite_original, backup, tag_file_views(tag_files@), path@),
{
    let mut args: Vec<String> = Vec::new();
    crate::args::push_flag(&mut args, overwrite_original, "-overwrite_original");
    crate::args::push_flag(&mut args, !backup, "-overwrite_original_in_place");
    let ghost before = views(args@);
    let mut i: usize = 0;
    assert(binary_assign_args(tag_file_views(tag_files@).take(0)) =~= Seq::<Seq<char>>::empty());
    while i < tag_files.len()
        invariant
            i <= tag_files@.len(),
            views(args@) == before + binary_assign_args(tag_file_views(tag_files@).take(i as int)),
        decreases tag_files@.len() - i,
    {
        let mut a = concat2("-", tag_files[i].0.tag_name());
        a.append("=");
        a.append(tag_files[i].1.as_str());
        crate::args::push_owned(&mut args, a);
        assert(binary_assign_args(tag_file_views(tag_files@).take(i + 1)) =~= binary_assign_args(
            tag_file_views(tag_files@).take(i as int),
        ).push("-"@ + binary_tag_name(tag_files@[i as int].0) + "="@ + tag_files@[i as int].1@));
        i = i + 1;
    }
    assert(tag_file_views(tag_files@).take(tag_files@.len() as int) =~= tag_file_views(tag_files@));
    push_arg(&mut args, path);
    args
}

/// The arguments that copy a binary tag of a file into another file:
/// `-b`, `-TAG`, `-w`, the output and the source.
pub fn read_binary_args(tag: BinaryTag, out: &str, path: &str) -> (r: Vec<String>)
    ensures
        views(r@) == seq!["-b"@, "-"@ + binary_tag_name(tag), "-w"@, out@, path@],
{
    let mut args: Vec<String> = Vec::new();
    push_arg(&mut args, "-b");
    crate::args::push_owned(&mut args, concat2("-", tag.tag_name()));
    push_arg(&mut args, "-w");
    push_arg(&mut args, out);
    push_arg(&mut args, path);
    args
}

} // verus!
