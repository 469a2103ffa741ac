//! Renaming and organizing files by their metadata.

use vstd::prelude::*;
use crate::args::{opt_pair, opt_view, push_arg, push_opt_pair, push_owned};
use crate::error::{Error, Result};
use crate::paths::{extension_of, file_name_of, join_of, parent_of, path_extension, path_file_name, path_join, path_parent};
use crate::text::{
    chars_of, concat2, concat3, contains_chars, contains_seq, find_chars, find_seq, owned,
    string_of_chars, trim, trim_chars, views,
};
use crate::types::TagId;

verus! {

/// How a file's new name is made from its metadata.
#[derive(Debug, Clone)]
pub enum RenamePattern {
    /// The original date and time, in a `strftime` format.
    DateTime { format: String },
    /// The value of a tag, with an optional suffix.
    Tag { tag: TagId, suffix: Option<String> },
    /// An ExifTool name format, taken as it is.
    Custom(String),
}

/// ExifTool's name format for a pattern.
pub open spec fn pattern_text(p: RenamePattern) -> Seq<char> {
    match p {
        RenamePattern::DateTime { format } => "%{DateTimeOriginal,"@ + format@ + "}"@,
        RenamePattern::Tag { tag, suffix } => match suffix {
            Some(s) => "%{"@ + tag.0@ + "}"@ + s@,
            None => "%{"@ + tag.0@ + "}"@,
        },
        RenamePattern::Custom(f) => f@,
    }
}

impl RenamePattern {
    /// Names by the original date and time.
    pub fn datetime(format: &str) -> (p: Self)
        ensures
            p matches RenamePattern::DateTime { format: f } && f@ == format@,
    {
        RenamePattern::DateTime { format: owned(format) }
    }

    /// Names by a tag.
    pub fn tag(tag: TagId) -> (p: Self)
        ensures
            p matches RenamePattern::Tag { tag: t, suffix: None } && t == tag,
    {
        RenamePattern::Tag { tag, suffix: None }
    }

    /// Names by a tag followed by a suffix.
    pub fn tag_with_suffix(tag: TagId, suffix: &str) -> (p: Self)
        ensures
            p matches RenamePattern::Tag { tag: t, suffix: Some(s) } && t == tag && s@ == suffix@,
    {
        RenamePattern::Tag { tag, suffix: Some(owned(suffix)) }
    }

    /// Names by an ExifTool name format.
    pub fn custom(format: &str) -> (p: Self)
        ensures
            p matches RenamePattern::Custom(f) && f@ == format@,
    {
        RenamePattern::Custom(owned(format))
    }

    /// The pattern as an ExifTool name format, such as
    /// `%{DateTimeOriginal,%Y%m%d}` or `%{Make}_photo`.
    pub fn to_exiftool_format(&self) -> (s: String)
        ensures
            s@ == pattern_text(*self),
    {
        match self {
            RenamePattern::DateTime { format } => concat3("%{DateTimeOriginal,", format.as_str(), "}"),
            RenamePattern::Tag { tag, suffix } => {
                let mut s = concat3("%{", tag.name(), "}");
                match suffix {
                    Some(x) => {
                        s.append(x.as_str());
                    },
                    None => {},
                }
                s
            },
            RenamePattern::Custom(f) => f.clone(),
        }
    }
}

/// Where and under which names files are organized.
#[derive(Debug, Clone)]
pub struct OrganizeOptions {
    pub target_dir: String,
    pub subdir_pattern: Option<RenamePattern>,
    pub filename_pattern: RenamePattern,
    pub extension: Option<String>,
}

impl OrganizeOptions {
    /// Files go straight into `target_dir`, named by date and time
    /// (`%Y%m%d_%H%M%S`), whatever their extension.
    pub fn new(target_dir: &str) -> (o: Self)
        ensures
            o.target_dir@ == target_dir@,
            o.subdir_pattern is None,
            o.filename_pattern matches RenamePattern::DateTime { format: f } && f@ == "%Y%m%d_%H%M%S"@,
            o.extension is None,
    {
        OrganizeOptions {
            target_dir: owned(target_dir),
            subdir_pattern: None,
            filename_pattern: RenamePattern::datetime("%Y%m%d_%H%M%S"),
            extension: None,
        }
    }

    /// Puts each file in a subdirectory named by a pattern.
    pub fn subdir(self, pattern: RenamePattern) -> (o: Self)
        ensures
            o == (OrganizeOptions { subdir_pattern: Some(pattern), ..self }),
    {
        OrganizeOptions { subdir_pattern: Some(pattern), ..self }
    }

    /// Names each file by a pattern.
    pub fn filename(self, pattern: RenamePattern) -> (o: Self)
        ensures
            o == (OrganizeOptions { filename_pattern: pattern, ..self }),
    {
        OrganizeOptions { filename_pattern: pattern, ..self }
    }

    /// Only takes files with an extension.
    pub fn extension(self, ext: &str) -> (o: Self)
        ensures
            o.extension matches Some(e) && e@ == ext@,
            o.target_dir == self.target_dir,
            o.subdir_pattern == self.subdir_pattern,
            o.filename_pattern == self.filename_pattern,
    {
        OrganizeOptions { extension: Some(owned(ext)), ..self }
    }
}

/// The destination format of organized files:
/// `DIR/[SUBDIR/]NAME%%e`.
pub open spec fn destination_text(o: OrganizeOptions) -> Seq<char> {
    match o.subdir_pattern {
        Some(sub) => o.target_dir@ + "/"@ + pattern_text(sub) + "/"@ + pattern_text(
            o.filename_pattern,
        ) + "%%e"@,
        None => o.target_dir@ + "/"@ + pattern_text(o.filename_pattern) + "%%e"@,
    }
}

/// The arguments that organize a file: `-FileName<` with the destination
/// format, `-ext` and the extension when there is one, and the file.
pub open spec fn organize_arg_list(o: OrganizeOptions, path: Seq<char>) -> Seq<Seq<char>> {
    seq!["-FileName<"@ + destination_text(o)] + opt_pair("-ext"@, opt_view(o.extension)) + seq![path]
}

/// The arguments that organize one file.
pub fn organize_args(options: &OrganizeOptions, path: &str) -> (r: Vec<String>)
    ensures
        views(r@) == organize_arg_list(*options, path@),
{
    let mut dest = owned(options.target_dir.as_str());
    dest.append("/");
    match &options.subdir_pattern {
        Some(sub) => {
            let s = sub.to_exiftool_format();
            dest.append(s.as_str());
            dest.append("/");
        },
        None => {},
    }
    let f = options.filename_pattern.to_exiftool_format();
    dest.append(f.as_str());
    dest.append("%%e");
    let mut args: Vec<String> = Vec::new();
    push_owned(&mut args, concat2("-FileName<", dest.as_str()));
    push_opt_pair(&mut args, "-ext", &options.extension);
    push_arg(&mut args, path);
    args
}

/// The arguments that print the name a pattern gives a file, without
/// renaming it: one argument `-p FORMAT`, and the file.
pub fn rename_preview_args(pattern: &RenamePattern, path: &str) -> (r: Vec<String>)
    ensures
        views(r@) == seq!["-p "@ + pattern_text(*pattern), path@],
{
    let f = pattern.to_exiftool_format();
    let mut args: Vec<String> = Vec::new();
    push_owned(&mut args, concat2("-p ", f.as_str()));
    push_arg(&mut args, path);
    args
}

/// The argument that renames a file by a pattern: `-FileName<FORMAT`.
pub fn rename_arg(pattern: &RenamePattern) -> (a: String)
    ensures
        a@ == "-FileName<"@ + pattern_text(*pattern),
{
    let f = pattern.to_exiftool_format();
    concat2("-FileName<", f.as_str())
}

// ---------------------------------------------------------------------------
// Reading the outcome of a rename
// ---------------------------------------------------------------------------

/// The text after the arrow of a rename report, trimmed.
#[verifier::opaque]
pub open spec fn after_arrow(line: Seq<char>) -> Option<Seq<char>> {
    match find_seq(line, "-->"@) {
        Some(p) => Some(trim(line.skip(p + 3))),
        None => None,
    }
}

/// The quoted name after the arrow of a report such as
/// `'old.jpg' --> 'new.jpg'`, when it is quoted and not empty.
pub open spec fn quoted_new_name(line: Seq<char>) -> Option<Seq<char>> {
    match after_arrow(line) {
        Some(t) => if t.len() > 2 && t[0] == '\'' && t[t.len() - 1] == '\'' {
            Some(t.subrange(1, t.len() - 1))
        } else {
            None
        },
        None => None,
    }
}

/// Whether the text after the arrow is a lone quote, which the reader
/// cannot take apart.
pub open spec fn lone_quote_after_arrow(line: Seq<char>) -> bool {
    match after_arrow(line) {
        Some(t) => t == seq!['\''],
        None => false,
    }
}

/// The new file name that a line of ExifTool's output reports: the file
/// name part of the quoted name after the arrow.
pub open spec fn reported_new_name(line: Seq<char>) -> Option<Seq<char>> {
    match quoted_new_name(line) {
        Some(n) => file_name_of(n),
        None => None,
    }
}

/// Reads the new file name from a line of ExifTool's output, such as
/// `'photo.jpg' --> '20260101_120000.jpg'`.
pub fn parse_rename_output(line: &str) -> (r: Option<String>)
    requires
        !lone_quote_after_arrow(line@),
    ensures
        r matches Some(n) ==> reported_new_name(line@) == Some(n@),
        r is None ==> reported_new_name(line@) is None,
{
    let c = chars_of(line);
    let arrow = chars_of("-->");
    proof {
        reveal_strlit("-->");
        reveal(after_arrow);
    }
    assert(arrow@.len() == 3);
    match find_chars(&c, &arrow) {
        Some(p) => {
            let clen = c.len();
            assert(p + arrow@.len() <= clen);
            let mut rest: Vec<char> = Vec::new();
            let mut k: usize = p + 3;
            while k < c.len()
                invariant
                    p + 3 <= k <= c@.len(),
                    rest@ == c@.subrange(p + 3, k as int),
                decreases c@.len() - k,
            {
                rest.push(c[k]);
                k = k + 1;
                assert(rest@ =~= c@.subrange(p + 3, k as int));
            }
            assert(rest@ =~= c@.skip(p + 3));
            let t = trim_chars(&rest);
            let n = t.len();
            if n > 2 && t[0] == '\'' && t[n - 1] == '\'' {
                let mut name: Vec<char> = Vec::new();
                let mut j: usize = 1;
                while j < n - 1
                    invariant
                        1 <= j <= n - 1,
                        n == t@.len(),
                        name@ == t@.subrange(1, j as int),
                    decreases n - 1 - j,
                {
                    name.push(t[j]);
                    j = j + 1;
                    assert(name@ =~= t@.subrange(1, j as int));
                }
                let s = string_of_chars(&name);
                path_file_name(s.as_str())
            } else {
                None
            }
        },
        None => None,
    }
}

/// The first new file name that some line reports.
pub open spec fn first_reported_name(lines: Seq<Seq<char>>) -> Option<Seq<char>>
    decreases lines.len(),
{
    if lines.len() == 0 {
        None
    } else {
        match reported_new_name(lines[0]) {
            Some(n) => Some(n),
            None => first_reported_name(lines.drop_first()),
        }
    }
}

/// Whether every line up to the first that reports a name can be read.
pub open spec fn reports_readable(lines: Seq<Seq<char>>) -> bool
    decreases lines.len(),
{
    if lines.len() == 0 {
        true
    } else {
        !lone_quote_after_arrow(lines[0]) && (reported_new_name(lines[0]) is Some || reports_readable(
            lines.drop_first(),
        ))
    }
}

/// The name that the previewed format gives: the preview itself, with the
/// file's extension behind a dot when the preview has no dot.
pub open spec fn preview_name(preview: Seq<char>, extension: Option<Seq<char>>) -> Seq<char> {
    match extension {
        Some(e) => if !contains_seq(preview, "."@) {
            preview + "."@ + e
        } else {
            preview
        },
        None => preview,
    }
}

/// The message of a rename whose new name cannot be told.
pub open spec fn rename_unknown_message() -> Seq<char> {
    "无法确定 ExifTool 重命名后的文件路径，请检查 ExifTool 输出"@
}

/// The new name of a renamed file, from ExifTool's output, else from the
/// name that a preview printed (trimmed; with the file's `extension` when
/// it has none), else a parse error.
pub open spec fn renamed_file_name_spec(
    lines: Seq<Seq<char>>,
    preview: Option<Seq<char>>,
    extension: Option<Seq<char>>,
) -> std::result::Result<Seq<char>, Seq<char>> {
    match first_reported_name(lines) {
        Some(n) => Ok(n),
        None => match preview {
            Some(p) => if trim(p).len() > 0 {
                Ok(preview_name(trim(p), extension))
            } else {
                Err(rename_unknown_message())
            },
            None => Err(rename_unknown_message()),
        },
    }
}

/// Finds the new name of a renamed file from the lines ExifTool printed
/// while renaming, the text a preview printed (if the preview ran), and
/// the original file's extension.
pub fn renamed_file_name(lines: &Vec<String>, preview: Option<String>, extension: Option<String>) -> (r: Result<String>)
    requires
        reports_readable(views(lines@)),
    ensures
        r matches Ok(n) ==> renamed_file_name_spec(views(lines@), opt_view(preview), opt_view(extension))
            == std::result::Result::<Seq<char>, Seq<char>>::Ok(n@),
        r matches Err(e) ==> e matches Error::Parse(m) && renamed_file_name_spec(
            views(lines@),
            opt_view(preview),
            opt_view(extension),
        ) == std::result::Result::<Seq<char>, Seq<char>>::Err(m@),
{
    let ghost all = views(lines@);
    let mut i: usize = 0;
    assert(all.skip(0) =~= all);
    while i < lines.len()
        invariant
            i <= lines@.len(),
            all == views(lines@),
            first_reported_name(all) == first_reported_name(all.skip(i as int)),
            reports_readable(all.skip(i as int)),
        decreases lines@.len() - i,
    {
        assert(all.skip(i as int)[0] == lines@[i as int]@);
        assert(all.skip(i as int).drop_first() =~= all.skip(i + 1));
        match parse_rename_output(lines[i].as_str()) {
            Some(n) => {
                return Ok(n);
            },
            None => {},
        }
        i = i + 1;
    }
    assert(all.skip(i as int).len() == 0);
    match preview {
        Some(p) => {
            let pc = chars_of(p.as_str());
            let t = trim_chars(&pc);
            if t.len() > 0 {
                let name = string_of_chars(&t);
                let dot = chars_of(".");
                match extension {
                    Some(e) => {
                        if !contains_chars(&t, &dot) {
                            let full = concat3(name.as_str(), ".", e.as_str());
                            Ok(full)
                        } else {
                            Ok(name)
                        }
                    },
                    None => Ok(name),
                }
            } else {
                Err(Error::parse("无法确定 ExifTool 重命名后的文件路径，请检查 ExifTool 输出"))
            }
        },
        None => Err(Error::parse("无法确定 ExifTool 重命名后的文件路径，请检查 ExifTool 输出")),
    }
}

/// Finds the new name of a renamed file as `renamed_file_name` does, after
/// checking that each line up to the first that reports a name can be
/// read; `None` when one cannot (its text after the arrow is a lone
/// quote).
pub fn new_file_name(lines: &Vec<String>, preview: Option<String>, extension: Option<String>) -> (r: Option<Result<String>>)
    ensures
        r is None <==> !reports_readable(views(lines@)),
        r matches Some(Ok(n)) ==> renamed_file_name_spec(views(lines@), opt_view(preview), opt_view(extension))
            == std::result::Result::<Seq<char>, Seq<char>>::Ok(n@),
        r matches Some(Err(e)) ==> e matches Error::Parse(m) && renamed_file_name_spec(
            views(lines@),
            opt_view(preview),
            opt_view(extension),
        ) == std::result::Result::<Seq<char>, Seq<char>>::Err(m@),
{
    if lines_readable(lines) {
        Some(renamed_file_name(lines, preview, extension))
    } else {
        None
    }
}

proof fn lemma_readable_skip(all: Seq<Seq<char>>, i: int)
    requires
        0 <= i <= all.len(),
        forall|j: int| 0 <= j < i ==> !lone_quote_after_arrow(#[trigger] all[j]) && reported_new_name(all[j]) is None,
    ensures
        reports_readable(all) == reports_readable(all.skip(i)),
    decreases i,
{
    if i > 0 {
        assert(all.drop_first().skip(i - 1) =~= all.skip(i));
        assert forall|j: int| 0 <= j < i - 1 implies !lone_quote_after_arrow(#[trigger] all.drop_first()[j])
            && reported_new_name(all.drop_first()[j]) is None by {
            assert(all.drop_first()[j] == all[j + 1]);
        }
        lemma_readable_skip(all.drop_first(), i - 1);
        assert(!lone_quote_after_arrow(all[0]) && reported_new_name(all[0]) is None);
    } else {
        assert(all.skip(0) =~= all);
    }
}

/// The directory of a path, or `.` when it has none.
pub open spec fn parent_or_dot(path: Seq<char>) -> Seq<char> {
    match parent_of(path) {
        Some(p) => p,
        None => "."@,
    }
}

/// The new path of a file renamed by ExifTool: the file's directory (or
/// `.`) joined with the new name that `new_file_name` finds from the lines
/// ExifTool printed, the preview's text and the file's own extension;
/// `None` when a line up to the first report cannot be read.
pub fn renamed_path(path: &str, lines: &Vec<String>, preview: Option<String>) -> (r: Option<Result<String>>)
    ensures
        r is None <==> !reports_readable(views(lines@)),
        r matches Some(Ok(p)) ==> renamed_file_name_spec(views(lines@), opt_view(preview), extension_of(path@)) matches Ok(n)
            && p@ == join_of(parent_or_dot(path@), n),
        r matches Some(Err(e)) ==> e matches Error::Parse(m) && renamed_file_name_spec(
            views(lines@),
            opt_view(preview),
            extension_of(path@),
        ) == std::result::Result::<Seq<char>, Seq<char>>::Err(m@),
{
    let ext = path_extension(path);
    assert(opt_view(ext) == extension_of(path@));
    match new_file_name(lines, preview, ext) {
        None => None,
        Some(Err(e)) => Some(Err(e)),
        Some(Ok(name)) => {
            let parent = match path_parent(path) {
                Some(p) => p,
                None => owned("."),
            };
            Some(Ok(path_join(parent.as_str(), name.as_str())))
        },
    }
}

/// Whether each line up to the first that reports a name can be read.
fn lines_readable(lines: &Vec<String>) -> (b: bool)
    ensures
        b == reports_readable(views(lines@)),
{
    let ghost all = views(lines@);
    let mut i: usize = 0;
    while i < lines.len()
        invariant
            i <= lines@.len(),
            all == views(lines@),
            forall|j: int| 0 <= j < i ==> !lone_quote_after_arrow(#[trigger] all[j]) && reported_new_name(all[j]) is None,
        decreases lines@.len() - i,
    {
        let ghost line = lines@[i as int]@;
        assert(all[i as int] == line);
        proof {
            lemma_readable_skip(all, i as int);
            assert(all.skip(i as int)[0] == line);
        }
        if lone_quote_at(lines[i].as_str()) {
            return false;
        }
        match parse_rename_output(lines[i].as_str()) {
            Some(_) => {
                return true;
            },
            None => {},
        }
        i = i + 1;
    }
    proof {
        lemma_readable_skip(all, i as int);
        assert(all.skip(i as int).len() == 0);
    }
    true
}

/// Whether the text after the arrow of a line is a lone quote.
fn lone_quote_at(line: &str) -> (b: bool)
    ensures
        b == lone_quote_after_arrow(line@),
{
    let c = chars_of(line);
    let arrow = chars_of("-->");
    proof {
        reveal_strlit("-->");
        reveal(after_arrow);
    }
    match find_chars(&c, &arrow) {
        Some(p) => {
            let clen = c.len();
            assert(p + arrow@.len() <= clen);
            let mut rest: Vec<char> = Vec::new();
            let mut k: usize = p + 3;
            while k < c.len()
                invariant
                    p + 3 <= k <= c@.len(),
                    rest@ == c@.subrange(p + 3, k as int),
                decreases c@.len() - k,
            {
                rest.push(c[k]);
                k = k + 1;
                assert(rest@ =~= c@.subrange(p + 3, k as int));
            }
            assert(rest@ =~= c@.skip(p + 3));
            let t = trim_chars(&rest);
            if t.len() == 1 && t[0] == '\'' {
                assert(t@ =~= seq!['\'']);
                true
            } else {
                assert(t@ != seq!['\''] ) by {
                    if t@ == seq!['\''] {
                        assert(t@.len() == 1 && t@[0] == '\'');
                    }
                }
                false
            }
        },
        None => false,
    }
}

} // verus!
