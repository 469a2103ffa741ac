//! Write builders: which tags to set or delete, as ExifTool arguments,
//! and what the answer to a write says.

use vstd::prelude::*;
use crate::args::{
    flag, opt_pair, opt_view, push_all, push_arg, push_flag, push_opt_pair, push_owned,
};
use crate::error::{Error, Result};
use crate::process::{is_error_line, Response};
use crate::query::{keyed, opt_str};
use crate::text::{
    chars_of, concat2, concat3, contains_seq, find_chars, find_seq, int_dec, nat_dec, owned,
    push_dec, str_contains, str_eq, views,
};
use crate::types::TagId;

verus! {

/// How tags are written (`-wm`).
#[derive(Debug, Clone, Copy, PartialEq, Eq)]
pub enum WriteMode {
    /// Write existing tags only.
    Write,
    /// Create new tags only.
    Create,
    /// Write existing and create new tags.
    WriteCreate,
}

/// The `-wm` value of a write mode.
pub open spec fn write_mode_str(m: WriteMode) -> Seq<char> {
    match m {
        WriteMode::Write => "w"@,
        WriteMode::Create => "c"@,
        WriteMode::WriteCreate => "wc"@,
    }
}

impl WriteMode {
    /// The `-wm` value.
    pub fn as_str(&self) -> (s: &'static str)
        ensures
            s@ == write_mode_str(*self),
    {
        match self {
            WriteMode::Write => "w",
            WriteMode::Create => "c",
            WriteMode::WriteCreate => "wc",
        }
    }
}

/// The views of tag/value entries.
pub open spec fn entry_views(e: Seq<(String, String)>) -> Seq<(Seq<char>, Seq<char>)> {
    e.map_values(|p: (String, String)| (p.0@, p.1@))
}

/// No tag name occurs twice.
pub open spec fn keys_unique(e: Seq<(Seq<char>, Seq<char>)>) -> bool {
    forall|i: int, j: int| 0 <= i < j < e.len() ==> #[trigger] e[i].0 != #[trigger] e[j].0
}

/// The position of the first entry for `tag`.
pub open spec fn first_entry(e: Seq<(Seq<char>, Seq<char>)>, tag: Seq<char>) -> int {
    choose|i: int| 0 <= i < e.len() && e[i].0 == tag && forall|j: int| 0 <= j < i ==> #[trigger] e[j].0 != tag
}

/// The entries after setting `tag` to `value`: an entry for the tag gets
/// the new value in place; otherwise the pair is appended.
pub open spec fn set_entry(
    e: Seq<(Seq<char>, Seq<char>)>,
    tag: Seq<char>,
    value: Seq<char>,
) -> Seq<(Seq<char>, Seq<char>)> {
    if exists|i: int| 0 <= i < e.len() && #[trigger] e[i].0 == tag {
        e.update(first_entry(e, tag), (tag, value))
    } else {
        e.push((tag, value))
    }
}

proof fn lemma_first_entry_exists(e: Seq<(Seq<char>, Seq<char>)>, tag: Seq<char>, i: int)
    requires
        0 <= i < e.len(),
        e[i].0 == tag,
    ensures
        0 <= first_entry(e, tag) < e.len(),
        e[first_entry(e, tag)].0 == tag,
        forall|j: int| 0 <= j < first_entry(e, tag) ==> #[trigger] e[j].0 != tag,
    decreases i,
{
    if exists|j: int| 0 <= j < i && #[trigger] e[j].0 == tag {
        let j = choose|j: int| 0 <= j < i && #[trigger] e[j].0 == tag;
        lemma_first_entry_exists(e, tag, j);
    } else {
        assert(0 <= i < e.len() && e[i].0 == tag && forall|j: int| 0 <= j < i ==> #[trigger] e[j].0 != tag);
    }
}

proof fn lemma_first_entry_is(e: Seq<(Seq<char>, Seq<char>)>, tag: Seq<char>, i: int)
    requires
        0 <= i < e.len(),
        e[i].0 == tag,
        forall|j: int| 0 <= j < i ==> #[trigger] e[j].0 != tag,
    ensures
        first_entry(e, tag) == i,
{
    lemma_first_entry_exists(e, tag, i);
    let c = first_entry(e, tag);
    if c < i {
        assert(e[c].0 != tag);
    } else if c > i {
        assert(e[i].0 != tag);
    }
}

/// Setting a tag twice leaves only the second value: the first value is
/// forgotten and the tag keeps its place.
pub proof fn law_set_entry_last_wins(
    e: Seq<(Seq<char>, Seq<char>)>,
    tag: Seq<char>,
    v1: Seq<char>,
    v2: Seq<char>,
)
    ensures
        set_entry(set_entry(e, tag, v1), tag, v2) == set_entry(e, tag, v2),
{
    let e1 = set_entry(e, tag, v1);
    if exists|i: int| 0 <= i < e.len() && #[trigger] e[i].0 == tag {
        let w = choose|i: int| 0 <= i < e.len() && #[trigger] e[i].0 == tag;
        lemma_first_entry_exists(e, tag, w);
        let k = first_entry(e, tag);
        assert(e1 == e.update(k, (tag, v1)));
        assert(e1[k].0 == tag);
        assert forall|j: int| 0 <= j < k implies #[trigger] e1[j].0 != tag by {
            assert(e1[j] == e[j]);
        }
        lemma_first_entry_is(e1, tag, k);
        assert(set_entry(e1, tag, v2) =~= e.update(k, (tag, v2)));
    } else {
        assert(e1 == e.push((tag, v1)));
        let n = e.len() as int;
        assert(e1[n].0 == tag);
        assert forall|j: int| 0 <= j < n implies #[trigger] e1[j].0 != tag by {
            assert(e1[j] == e[j]);
        }
        lemma_first_entry_is(e1, tag, n);
        assert(set_entry(e1, tag, v2) =~= e.push((tag, v2)));
    }
}

/// Setting a tag keeps the tags distinct, and afterwards the tag has the
/// value it was set to.
pub proof fn law_set_entry_unique(e: Seq<(Seq<char>, Seq<char>)>, tag: Seq<char>, value: Seq<char>)
    requires
        keys_unique(e),
    ensures
        keys_unique(set_entry(e, tag, value)),
        exists|i: int| 0 <= i < set_entry(e, tag, value).len() && #[trigger] set_entry(e, tag, value)[i] == (tag, value),
{
    let r = set_entry(e, tag, value);
    if exists|i: int| 0 <= i < e.len() && #[trigger] e[i].0 == tag {
        let w = choose|i: int| 0 <= i < e.len() && #[trigger] e[i].0 == tag;
        lemma_first_entry_exists(e, tag, w);
        let k = first_entry(e, tag);
        assert(r == e.update(k, (tag, value)));
        assert forall|i: int, j: int| 0 <= i < j < r.len() implies #[trigger] r[i].0 != #[trigger] r[j].0 by {
            if i == k {
                assert(e[k].0 != e[j].0);
            } else if j == k {
                assert(e[i].0 != e[k].0);
            } else {
                assert(e[i].0 != e[j].0);
            }
        }
        assert(r[k] == (tag, value));
    } else {
        assert(r == e.push((tag, value)));
        let n = e.len() as int;
        assert forall|i: int, j: int| 0 <= i < j < r.len() implies #[trigger] r[i].0 != #[trigger] r[j].0 by {
            if j == n {
                assert(r[i] == e[i]);
            } else {
                assert(e[i].0 != e[j].0);
            }
        }
        assert(r[n] == (tag, value));
    }
}

/// The `-TAG=VALUE` arguments of entries.
pub open spec fn entry_args(e: Seq<(Seq<char>, Seq<char>)>) -> Seq<Seq<char>> {
    e.map_values(|p: (Seq<char>, Seq<char>)| "-"@ + p.0 + "="@ + p.1)
}

/// The `-TAG=` arguments that delete tags.
pub open spec fn delete_args(tags: Seq<Seq<char>>) -> Seq<Seq<char>> {
    tags.map_values(|t: Seq<char>| "-"@ + t + "="@)
}

/// A write to one file.
pub struct WriteBuilder {
    pub path: String,
    pub tags: Vec<(String, String)>,
    pub delete_tags: Vec<String>,
    pub overwrite_original: bool,
    pub backup: bool,
    pub output_path: Option<String>,
    pub condition: Option<String>,
    pub ignore_minor_errors: bool,
    pub preserve_time: bool,
    pub quiet: bool,
    pub zip_compression: bool,
    pub fix_base_enabled: bool,
    pub fix_base_offset: Option<i64>,
    pub raw_args: Vec<String>,
}

/// The `-F` option: `-F`, or `-FOFFSET`.
pub open spec fn fix_base_arg(offset: Option<i64>) -> Seq<char> {
    match offset {
        Some(o) => "-F"@ + int_dec(o as int),
        None => "-F"@,
    }
}

/// The arguments of a write, in order: the output and safety options,
/// the raw arguments, `-TAG=` for each deleted tag, `-TAG=VALUE` for each
/// written tag, and last the file path.
pub open spec fn write_args(b: WriteBuilder) -> Seq<Seq<char>> {
    flag(b.overwrite_original, "-overwrite_original"@)
    + flag(!b.backup, "-overwrite_original_in_place"@)
    + opt_pair("-o"@, opt_view(b.output_path))
    + opt_pair("-if"@, opt_view(b.condition))
    + flag(b.ignore_minor_errors, "-m"@)
    + flag(b.preserve_time, "-P"@)
    + flag(b.quiet, "-q"@)
    + flag(b.zip_compression, "-z"@)
    + (if b.fix_base_enabled { seq![fix_base_arg(b.fix_base_offset)] } else { Seq::<Seq<char>>::empty() })
    + views(b.raw_args@)
    + delete_args(views(b.delete_tags@))
    + entry_args(entry_views(b.tags@))
    + seq![b.path@]
}

proof fn lemma_seq_assoc(o: Seq<Seq<char>>, x: Seq<Seq<char>>, y: Seq<Seq<char>>)
    ensures
        o + x + y == o + (x + y),
{
    assert(o + x + y =~= o + (x + y));
}

/// `overwrite_original` decides exactly one argument: a write that
/// overwrites the original sends `-overwrite_original` first, in front of
/// everything the same write without it sends, and nothing else changes.
pub proof fn law_overwrite_original_flag(b: WriteBuilder)
    ensures
        write_args(WriteBuilder { overwrite_original: true, ..b }) == seq!["-overwrite_original"@]
            + write_args(WriteBuilder { overwrite_original: false, ..b }),
        b.overwrite_original ==> write_args(b)[0] == "-overwrite_original"@,
        write_args(WriteBuilder { overwrite_original: true, ..b }).len() == write_args(
            WriteBuilder { overwrite_original: false, ..b },
        ).len() + 1,
{
    let t = WriteBuilder { overwrite_original: true, ..b };
    let f = WriteBuilder { overwrite_original: false, ..b };
    let a1 = flag(!b.backup, "-overwrite_original_in_place"@);
    let a2 = opt_pair("-o"@, opt_view(b.output_path));
    let a3 = opt_pair("-if"@, opt_view(b.condition));
    let a4 = flag(b.ignore_minor_errors, "-m"@);
    let a5 = flag(b.preserve_time, "-P"@);
    let a6 = flag(b.quiet, "-q"@);
    let a7 = flag(b.zip_compression, "-z"@);
    let a8 = if b.fix_base_enabled { seq![fix_base_arg(b.fix_base_offset)] } else { Seq::<Seq<char>>::empty() };
    let a9 = views(b.raw_args@);
    let a10 = delete_args(views(b.delete_tags@));
    let a11 = entry_args(entry_views(b.tags@));
    let a12 = seq![b.path@];
    let o = seq!["-overwrite_original"@];
    assert(flag(true, "-overwrite_original"@) == o) by {
        reveal(flag);
    }
    assert(flag(false, "-overwrite_original"@) == Seq::<Seq<char>>::empty()) by {
        reveal(flag);
    }
    let r2 = a1 + a2;
    let r3 = r2 + a3;
    let r4 = r3 + a4;
    let r5 = r4 + a5;
    let r6 = r5 + a6;
    let r7 = r6 + a7;
    let r8 = r7 + a8;
    let r9 = r8 + a9;
    let r10 = r9 + a10;
    let r11 = r10 + a11;
    let r12 = r11 + a12;
    lemma_seq_assoc(o, a1, a2);
    lemma_seq_assoc(o, r2, a3);
    lemma_seq_assoc(o, r3, a4);
    lemma_seq_assoc(o, r4, a5);
    lemma_seq_assoc(o, r5, a6);
    lemma_seq_assoc(o, r6, a7);
    lemma_seq_assoc(o, r7, a8);
    lemma_seq_assoc(o, r8, a9);
    lemma_seq_assoc(o, r9, a10);
    lemma_seq_assoc(o, r10, a11);
    lemma_seq_assoc(o, r11, a12);
    assert(write_args(t) == o + r12);
    lemma_seq_assoc(Seq::<Seq<char>>::empty(), a1, a2);
    assert(Seq::<Seq<char>>::empty() + a1 =~= a1);
    lemma_seq_assoc(Seq::<Seq<char>>::empty(), r2, a3);
    lemma_seq_assoc(Seq::<Seq<char>>::empty(), r3, a4);
    lemma_seq_assoc(Seq::<Seq<char>>::empty(), r4, a5);
    lemma_seq_assoc(Seq::<Seq<char>>::empty(), r5, a6);
    lemma_seq_assoc(Seq::<Seq<char>>::empty(), r6, a7);
    lemma_seq_assoc(Seq::<Seq<char>>::empty(), r7, a8);
    lemma_seq_assoc(Seq::<Seq<char>>::empty(), r8, a9);
    lemma_seq_assoc(Seq::<Seq<char>>::empty(), r9, a10);
    lemma_seq_assoc(Seq::<Seq<char>>::empty(), r10, a11);
    lemma_seq_assoc(Seq::<Seq<char>>::empty(), r11, a12);
    assert(Seq::<Seq<char>>::empty() + r12 =~= r12);
    assert(write_args(f) == r12);
    if b.overwrite_original {
        assert(b == t);
    }
}

fn find_entry(e: &Vec<(String, String)>, tag: &str) -> (r: Option<usize>)
    ensures
        r matches Some(i) ==> i < e@.len() && entry_views(e@)[i as int].0 == tag@ && forall|j: int|
            0 <= j < i ==> #[trigger] entry_views(e@)[j].0 != tag@,
        r is None ==> forall|i: int| 0 <= i < e@.len() ==> #[trigger] entry_views(e@)[i].0 != tag@,
{
    let mut i: usize = 0;
    while i < e.len()
        invariant
            i <= e@.len(),
            forall|j: int| 0 <= j < i ==> #[trigger] entry_views(e@)[j].0 != tag@,
        decreases e@.len() - i,
    {
        assert(entry_views(e@)[i as int] == (e@[i as int].0@, e@[i as int].1@));
        if str_eq(e[i].0.as_str(), tag) {
            return Some(i);
        }
        i = i + 1;
    }
    None
}

impl WriteBuilder {
    /// A write to the file at `path` with nothing to write yet. Backups
    /// are kept by default.
    pub fn new(path: &str) -> (b: Self)
        ensures
            b.path@ == path@,
            b.tags@.len() == 0 && b.delete_tags@.len() == 0 && b.raw_args@.len() == 0,
            !b.overwrite_original && b.backup && b.output_path is None && b.condition is None,
            !b.ignore_minor_errors && !b.preserve_time && !b.quiet && !b.zip_compression,
            !b.fix_base_enabled && b.fix_base_offset is None,
    {
        WriteBuilder {
            path: owned(path),
            tags: Vec::new(),
            delete_tags: Vec::new(),
            overwrite_original: false,
            backup: true,
            output_path: None,
            condition: None,
            ignore_minor_errors: false,
            preserve_time: false,
            quiet: false,
            zip_compression: false,
            fix_base_enabled: false,
            fix_base_offset: None,
            raw_args: Vec::new(),
        }
    }

    /// Sets a tag to a value (`-TAG=VALUE`); setting the same tag again
    /// replaces the earlier value.
    pub fn tag(self, tag: &str, value: &str) -> (b: Self)
        ensures
            keys_unique(entry_views(self.tags@)) ==> keys_unique(entry_views(b.tags@)),
            entry_views(b.tags@) == set_entry(entry_views(self.tags@), tag@, value@),
            b == (WriteBuilder { tags: b.tags, ..self }),
    {
        let mut b = self;
        let ghost old_e = entry_views(b.tags@);
        match find_entry(&b.tags, tag) {
            Some(i) => {
                b.tags.set(i, (owned(tag), owned(value)));
                proof {
                    let k = i as int;
                    let c = first_entry(old_e, tag@);
                    assert(old_e[k].0 == tag@);
                    assert(0 <= c < old_e.len() && old_e[c].0 == tag@ && forall|j: int| 0 <= j < c ==> #[trigger] old_e[j].0 != tag@);
                    if c < k {
                    } else if c > k {
                        assert(old_e[k].0 != tag@);
                    }
                    assert(entry_views(b.tags@) =~= old_e.update(k, (tag@, value@)));
                    if keys_unique(old_e) {
                        assert forall|x: int, y: int| 0 <= x < y < entry_views(b.tags@).len() implies
                            #[trigger] entry_views(b.tags@)[x].0 != #[trigger] entry_views(b.tags@)[y].0 by {
                            if x != k && y != k {
                                assert(old_e[x].0 != old_e[y].0);
                            } else if x == k {
                                assert(old_e[k].0 != old_e[y].0);
                            } else {
                                assert(old_e[x].0 != old_e[k].0);
                            }
                        }
                    }
                }
            },
            None => {
                b.tags.push((owned(tag), owned(value)));
                assert(entry_views(b.tags@) =~= old_e.push((tag@, value@)));
                assert(!exists|i: int| 0 <= i < old_e.len() && #[trigger] old_e[i].0 == tag@);
                assert forall|x: int, y: int| 0 <= x < y < entry_views(b.tags@).len() && keys_unique(old_e) implies
                    #[trigger] entry_views(b.tags@)[x].0 != #[trigger] entry_views(b.tags@)[y].0 by {
                    if y < old_e.len() {
                        assert(old_e[x].0 != old_e[y].0);
                    } else {
                        assert(old_e[x].0 != tag@);
                    }
                }
            },
        }
        b
    }

    /// Sets several tags, one after the other.
    pub fn tags(self, pairs: &[(&str, &str)]) -> (b: Self)
        ensures
            entry_views(b.tags@) == set_entries(entry_views(self.tags@), pair_views(pairs@)),
            keys_unique(entry_views(self.tags@)) ==> keys_unique(entry_views(b.tags@)),
            b == (WriteBuilder { tags: b.tags, ..self }),
    {
        let mut b = self;
        let mut i: usize = 0;
        assert(pair_views(pairs@).take(0) =~= Seq::<(Seq<char>, Seq<char>)>::empty());
        while i < pairs.len()
            invariant
                i <= pairs@.len(),
                entry_views(b.tags@) == set_entries(entry_views(self.tags@), pair_views(pairs@).take(i as int)),
                keys_unique(entry_views(self.tags@)) ==> keys_unique(entry_views(b.tags@)),
                b == (WriteBuilder { tags: b.tags, ..self }),
            decreases pairs@.len() - i,
        {
            let (k, v) = pairs[i];
            b = b.tag(k, v);
            assert(pair_views(pairs@).take(i + 1).drop_last() =~= pair_views(pairs@).take(i as int));
            i = i + 1;
        }
        assert(pair_views(pairs@).take(pairs@.len() as int) =~= pair_views(pairs@));
        b
    }

    /// Sets a tag, by identifier.
    pub fn tag_id(self, tag: TagId, value: &str) -> (b: Self)
        ensures
            keys_unique(entry_views(self.tags@)) ==> keys_unique(entry_views(b.tags@)),
            entry_views(b.tags@) == set_entry(entry_views(self.tags@), tag.0@, value@),
            b == (WriteBuilder { tags: b.tags, ..self }),
    {
        self.tag(tag.name(), value)
    }

    /// Deletes a tag (`-TAG=`).
    pub fn delete(self, tag: &str) -> (b: Self)
        ensures
            views(b.delete_tags@) == views(self.delete_tags@).push(tag@),
            b == (WriteBuilder { delete_tags: b.delete_tags, ..self }),
    {
        let mut b = self;
        push_arg(&mut b.delete_tags, tag);
        b
    }

    /// Deletes a tag, by identifier.
    pub fn delete_id(self, tag: TagId) -> (b: Self)
        ensures
            views(b.delete_tags@) == views(self.delete_tags@).push(tag.0@),
            b == (WriteBuilder { delete_tags: b.delete_tags, ..self }),
    {
        self.delete(tag.name())
    }

    /// Writes to another file instead of the original (`-o`).
    pub fn output(self, path: &str) -> (b: Self)
        ensures
            opt_view(b.output_path) == Some(path@),
            b == (WriteBuilder { output_path: b.output_path, ..self }),
    {
        WriteBuilder { output_path: Some(owned(path)), ..self }
    }

    /// Writes only when a condition holds (`-if`).
    pub fn condition(self, expr: &str) -> (b: Self)
        ensures
            opt_view(b.condition) == Some(expr@),
            b == (WriteBuilder { condition: b.condition, ..self }),
    {
        WriteBuilder { condition: Some(owned(expr)), ..self }
    }

    /// Fixes the MakerNotes base offset (`-F`, `-FOFFSET`).
    pub fn fix_base(self, offset: Option<i64>) -> (b: Self)
        ensures
            b == (WriteBuilder { fix_base_enabled: true, fix_base_offset: offset, ..self }),
    {
        WriteBuilder { fix_base_enabled: true, fix_base_offset: offset, ..self }
    }

    /// Fixes the MakerNotes base offset by an amount (`-FOFFSET`).
    pub fn fix_base_offset(self, offset: i64) -> (b: Self)
        ensures
            b == (WriteBuilder { fix_base_enabled: true, fix_base_offset: Some(offset), ..self }),
    {
        WriteBuilder { fix_base_enabled: true, fix_base_offset: Some(offset), ..self }
    }

    /// Adds a raw argument.
    pub fn arg(self, arg: &str) -> (b: Self)
        ensures
            views(b.raw_args@) == views(self.raw_args@).push(arg@),
            b == (WriteBuilder { raw_args: b.raw_args, ..self }),
    {
        let mut b = self;
        push_arg(&mut b.raw_args, arg);
        b
    }

    /// Sets the write mode (`-wm`).
    pub fn write_mode(self, mode: WriteMode) -> (b: Self)
        ensures
            views(b.raw_args@) == views(self.raw_args@) + seq!["-wm"@, write_mode_str(mode)],
            b == (WriteBuilder { raw_args: b.raw_args, ..self }),
    {
        let mut b = self;
        push_arg(&mut b.raw_args, "-wm");
        push_arg(&mut b.raw_args, mode.as_str());
        assert(views(b.raw_args@) =~= views(self.raw_args@) + seq!["-wm"@, write_mode_str(mode)]);
        b
    }

    /// Sets an API option (`-api OPT=VALUE`, or `-api OPT`).
    pub fn api_option(self, opt: &str, value: Option<&str>) -> (b: Self)
        ensures
            views(b.raw_args@) == views(self.raw_args@) + seq!["-api"@, keyed(opt@, opt_str(value))],
            b == (WriteBuilder { raw_args: b.raw_args, ..self }),
    {
        let mut b = self;
        push_arg(&mut b.raw_args, "-api");
        let v = match value {
            Some(x) => concat3(opt, "=", x),
            None => owned(opt),
        };
        push_owned(&mut b.raw_args, v);
        assert(views(b.raw_args@) =~= views(self.raw_args@) + seq!["-api"@, keyed(opt@, opt_str(value))]);
        b
    }

    /// Sets a user parameter (`-userParam PARAM=VALUE`, or `-userParam PARAM`).
    pub fn user_param(self, param: &str, value: Option<&str>) -> (b: Self)
        ensures
            views(b.raw_args@) == views(self.raw_args@) + seq!["-userParam"@, keyed(param@, opt_str(value))],
            b == (WriteBuilder { raw_args: b.raw_args, ..self }),
    {
        let mut b = self;
        push_arg(&mut b.raw_args, "-userParam");
        let v = match value {
            Some(x) => concat3(param, "=", x),
            None => owned(param),
        };
        push_owned(&mut b.raw_args, v);
        assert(views(b.raw_args@) =~= views(self.raw_args@) + seq!["-userParam"@, keyed(param@, opt_str(value))]);
        b
    }

    /// Copies tags from another file (`-tagsFromFile`).
    pub fn copy_from(self, source: &str) -> (b: Self)
        ensures
            views(b.raw_args@) == views(self.raw_args@) + seq!["-tagsFromFile"@, source@],
            b == (WriteBuilder { raw_args: b.raw_args, ..self }),
    {
        let mut b = self;
        push_arg(&mut b.raw_args, "-tagsFromFile");
        push_arg(&mut b.raw_args, source);
        assert(views(b.raw_args@) =~= views(self.raw_args@) + seq!["-tagsFromFile"@, source@]);
        b
    }

    /// Copies tags from another file, redirecting each `(dst, src)` pair
    /// (`-DST<SRC`).
    pub fn copy_from_with_redirect(self, source: &str, redirects: &[(&str, &str)]) -> (b: Self)
        ensures
            views(b.raw_args@) == views(self.raw_args@) + seq!["-tagsFromFile"@, source@]
                + redirect_args("-"@, pair_views(redirects@)),
            b == (WriteBuilder { raw_args: b.raw_args, ..self }),
    {
        let mut b = self;
        push_arg(&mut b.raw_args, "-tagsFromFile");
        push_arg(&mut b.raw_args, source);
        assert(views(b.raw_args@) =~= views(self.raw_args@) + seq!["-tagsFromFile"@, source@]);
        push_redirects(&mut b.raw_args, "-", redirects);
        b
    }

    /// Copies tags from another file, appending each `(dst, src)` pair to
    /// list tags (`-+DST<SRC`).
    pub fn copy_from_with_append(self, source: &str, redirects: &[(&str, &str)]) -> (b: Self)
        ensures
            views(b.raw_args@) == views(self.raw_args@) + seq!["-tagsFromFile"@, source@]
                + redirect_args("-+"@, pair_views(redirects@)),
            b == (WriteBuilder { raw_args: b.raw_args, ..self }),
    {
        let mut b = self;
        push_arg(&mut b.raw_args, "-tagsFromFile");
        push_arg(&mut b.raw_args, source);
        assert(views(b.raw_args@) =~= views(self.raw_args@) + seq!["-tagsFromFile"@, source@]);
        push_redirects(&mut b.raw_args, "-+", redirects);
        b
    }

    /// A numbered condition (`-ifNUM`).
    pub fn condition_num(self, num: u8, expr: &str) -> (b: Self)
        ensures
            views(b.raw_args@) == views(self.raw_args@) + seq!["-if"@ + nat_dec(num as nat), expr@],
            b == (WriteBuilder { raw_args: b.raw_args, ..self }),
    {
        let mut b = self;
        let mut o = owned("-if");
        push_dec(&mut o, num as u64);
        push_owned(&mut b.raw_args, o);
        push_arg(&mut b.raw_args, expr);
        assert(views(b.raw_args@) =~= views(self.raw_args@) + seq!["-if"@ + nat_dec(num as nat), expr@]);
        b
    }

    /// Verbose output: `-v`, or `-vN`.
    pub fn verbose(self, level: Option<u8>) -> (b: Self)
        ensures
            views(b.raw_args@) == views(self.raw_args@).push(
                match level {
                    Some(n) => "-v"@ + nat_dec(n as nat),
                    None => "-v"@,
                },
            ),
            b == (WriteBuilder { raw_args: b.raw_args, ..self }),
    {
        let mut b = self;
        let o = match level {
            Some(n) => {
                let mut o = owned("-v");
                push_dec(&mut o, n as u64);
                o
            },
            None => owned("-v"),
        };
        push_owned(&mut b.raw_args, o);
        b
    }

    /// Saves names of files with errors or unchanged files:
    /// `-efile[NUM][!]` followed by the file name.
    pub fn efile_variant(self, filename: &str, num: Option<u8>, force: bool) -> (b: Self)
        ensures
            views(b.raw_args@) == views(self.raw_args@) + seq![
                "-efile"@ + (match num { Some(n) => nat_dec(n as nat), None => Seq::<char>::empty() })
                    + (if force { "!"@ } else { Seq::<char>::empty() }),
                filename@,
            ],
            b == (WriteBuilder { raw_args: b.raw_args, ..self }),
    {
        let mut b = self;
        let mut o = owned("-efile");
        match num {
            Some(n) => push_dec(&mut o, n as u64),
            None => {},
        }
        if force {
            o.append("!");
        }
        push_owned(&mut b.raw_args, o);
        push_arg(&mut b.raw_args, filename);
        assert(views(b.raw_args@) =~= views(self.raw_args@) + seq![
                "-efile"@ + (match num { Some(n) => nat_dec(n as nat), None => Seq::<char>::empty() })
                    + (if force { "!"@ } else { Seq::<char>::empty() }),
                filename@,
            ]);
        b
    }

    /// Recurses into subdirectories (`-r`) when asked.
    pub fn recursive(self, yes: bool) -> (b: Self)
        ensures
            views(b.raw_args@) == views(self.raw_args@) + flag(yes, "-r"@),
            b == (WriteBuilder { raw_args: b.raw_args, ..self }),
    {
        let mut b = self;
        push_flag(&mut b.raw_args, yes, "-r");
        b
    }

    /// Recurses including hidden directories (`-r.`).
    pub fn recursive_hidden(self) -> (b: Self)
        ensures
            views(b.raw_args@) == views(self.raw_args@).push("-r."@),
            b == (WriteBuilder { raw_args: b.raw_args, ..self }),
    {
        let mut b = self;
        push_arg(&mut b.raw_args, "-r.");
        b
    }

    /// Overwrites the original file, keeping no backup (`-overwrite_original`).
    pub fn overwrite_original(self, yes: bool) -> (b: Self)
        ensures
            b == (WriteBuilder { overwrite_original: yes, ..self }),
    {
        WriteBuilder { overwrite_original: yes, ..self }
    }

    /// Keeps a backup; without one, the file is overwritten in place (`-overwrite_original_in_place`).
    pub fn backup(self, yes: bool) -> (b: Self)
        ensures
            b == (WriteBuilder { backup: yes, ..self }),
    {
        WriteBuilder { backup: yes, ..self }
    }

    /// Ignores minor errors (`-m`).
    pub fn ignore_minor_errors(self, yes: bool) -> (b: Self)
        ensures
            b == (WriteBuilder { ignore_minor_errors: yes, ..self }),
    {
        WriteBuilder { ignore_minor_errors: yes, ..self }
    }

    /// Keeps the file's modification time (`-P`).
    pub fn preserve_time(self, yes: bool) -> (b: Self)
        ensures
            b == (WriteBuilder { preserve_time: yes, ..self }),
    {
        WriteBuilder { preserve_time: yes, ..self }
    }

    /// Quiet mode (`-q`).
    pub fn quiet(self, yes: bool) -> (b: Self)
        ensures
            b == (WriteBuilder { quiet: yes, ..self }),
    {
        WriteBuilder { quiet: yes, ..self }
    }

    /// Compresses what can be compressed (`-z`).
    pub fn zip_compression(self, yes: bool) -> (b: Self)
        ensures
            b == (WriteBuilder { zip_compression: yes, ..self }),
    {
        WriteBuilder { zip_compression: yes, ..self }
    }

    /// Sets a password (`-password`).
    pub fn password(self, value: &str) -> (b: Self)
        ensures
            views(b.raw_args@) == views(self.raw_args@) + seq!["-password"@, value@],
            b == (WriteBuilder { raw_args: b.raw_args, ..self }),
    {
        let mut b = self;
        push_arg(&mut b.raw_args, "-password");
        push_arg(&mut b.raw_args, value);
        assert(views(b.raw_args@) =~= views(self.raw_args@) + seq!["-password"@, value@]);
        b
    }

    /// Sets the list separator (`-sep`).
    pub fn separator(self, value: &str) -> (b: Self)
        ensures
            views(b.raw_args@) == views(self.raw_args@) + seq!["-sep"@, value@],
            b == (WriteBuilder { raw_args: b.raw_args, ..self }),
    {
        let mut b = self;
        push_arg(&mut b.raw_args, "-sep");
        push_arg(&mut b.raw_args, value);
        assert(views(b.raw_args@) =~= views(self.raw_args@) + seq!["-sep"@, value@]);
        b
    }

    /// Shifts all date/time values (`-globalTimeShift`).
    pub fn global_time_shift(self, value: &str) -> (b: Self)
        ensures
            views(b.raw_args@) == views(self.raw_args@) + seq!["-globalTimeShift"@, value@],
            b == (WriteBuilder { raw_args: b.raw_args, ..self }),
    {
        let mut b = self;
        push_arg(&mut b.raw_args, "-globalTimeShift");
        push_arg(&mut b.raw_args, value);
        assert(views(b.raw_args@) =~= views(self.raw_args@) + seq!["-globalTimeShift"@, value@]);
        b
    }

    /// Prints with a format, without a newline (`-p-`).
    pub fn print_format_no_newline(self, value: &str) -> (b: Self)
        ensures
            views(b.raw_args@) == views(self.raw_args@) + seq!["-p-"@, value@],
            b == (WriteBuilder { raw_args: b.raw_args, ..self }),
    {
        let mut b = self;
        push_arg(&mut b.raw_args, "-p-");
        push_arg(&mut b.raw_args, value);
        assert(views(b.raw_args@) =~= views(self.raw_args@) + seq!["-p-"@, value@]);
        b
    }

    /// Prints with a format (`-p`).
    pub fn print_format(self, value: &str) -> (b: Self)
        ensures
            views(b.raw_args@) == views(self.raw_args@) + seq!["-p"@, value@],
            b == (WriteBuilder { raw_args: b.raw_args, ..self }),
    {
        let mut b = self;
        push_arg(&mut b.raw_args, "-p");
        push_arg(&mut b.raw_args, value);
        assert(views(b.raw_args@) =~= views(self.raw_args@) + seq!["-p"@, value@]);
        b
    }

    /// Appends output to files with this extension (`-w+`).
    pub fn text_out_append(self, value: &str) -> (b: Self)
        ensures
            views(b.raw_args@) == views(self.raw_args@) + seq!["-w+"@, value@],
            b == (WriteBuilder { raw_args: b.raw_args, ..self }),
    {
        let mut b = self;
        push_arg(&mut b.raw_args, "-w+");
        push_arg(&mut b.raw_args, value);
        assert(views(b.raw_args@) =~= views(self.raw_args@) + seq!["-w+"@, value@]);
        b
    }

    /// Writes output to new files only (`-w!`).
    pub fn text_out_create(self, value: &str) -> (b: Self)
        ensures
            views(b.raw_args@) == views(self.raw_args@) + seq!["-w!"@, value@],
            b == (WriteBuilder { raw_args: b.raw_args, ..self }),
    {
        let mut b = self;
        push_arg(&mut b.raw_args, "-w!");
        push_arg(&mut b.raw_args, value);
        assert(views(b.raw_args@) =~= views(self.raw_args@) + seq!["-w!"@, value@]);
        b
    }

    /// Appends tags to files with this format (`-W+`).
    pub fn tag_out_append(self, value: &str) -> (b: Self)
        ensures
            views(b.raw_args@) == views(self.raw_args@) + seq!["-W+"@, value@],
            b == (WriteBuilder { raw_args: b.raw_args, ..self }),
    {
        let mut b = self;
        push_arg(&mut b.raw_args, "-W+");
        push_arg(&mut b.raw_args, value);
        assert(views(b.raw_args@) =~= views(self.raw_args@) + seq!["-W+"@, value@]);
        b
    }

    /// Writes tags to new files only (`-W!`).
    pub fn tag_out_create(self, value: &str) -> (b: Self)
        ensures
            views(b.raw_args@) == views(self.raw_args@) + seq!["-W!"@, value@],
            b == (WriteBuilder { raw_args: b.raw_args, ..self }),
    {
        let mut b = self;
        push_arg(&mut b.raw_args, "-W!");
        push_arg(&mut b.raw_args, value);
        assert(views(b.raw_args@) =~= views(self.raw_args@) + seq!["-W!"@, value@]);
        b
    }

    /// Adds a file extension to process (`-ext+`).
    pub fn extension_add(self, value: &str) -> (b: Self)
        ensures
            views(b.raw_args@) == views(self.raw_args@) + seq!["-ext+"@, value@],
            b == (WriteBuilder { raw_args: b.raw_args, ..self }),
    {
        let mut b = self;
        push_arg(&mut b.raw_args, "-ext+");
        push_arg(&mut b.raw_args, value);
        assert(views(b.raw_args@) =~= views(self.raw_args@) + seq!["-ext+"@, value@]);
        b
    }

    /// Only files with this extension (`-ext`).
    pub fn extension(self, value: &str) -> (b: Self)
        ensures
            views(b.raw_args@) == views(self.raw_args@) + seq!["-ext"@, value@],
            b == (WriteBuilder { raw_args: b.raw_args, ..self }),
    {
        let mut b = self;
        push_arg(&mut b.raw_args, "-ext");
        push_arg(&mut b.raw_args, value);
        assert(views(b.raw_args@) =~= views(self.raw_args@) + seq!["-ext"@, value@]);
        b
    }

    /// Appends a value to a list tag (`-TAG+=VALUE`).
    pub fn tag_append(self, tag: &str, value: &str) -> (b: Self)
        ensures
            views(b.raw_args@) == views(self.raw_args@).push("-"@ + tag@ + "+="@ + value@),
            b == (WriteBuilder { raw_args: b.raw_args, ..self }),
    {
        let mut b = self;
        let mut a = concat3("-", tag, "+=");
        a.append(value);
        push_owned(&mut b.raw_args, a);
        b
    }

    /// Removes a value from a list tag (`-TAG-=VALUE`).
    pub fn tag_remove(self, tag: &str, value: &str) -> (b: Self)
        ensures
            views(b.raw_args@) == views(self.raw_args@).push("-"@ + tag@ + "-="@ + value@),
            b == (WriteBuilder { raw_args: b.raw_args, ..self }),
    {
        let mut b = self;
        let mut a = concat3("-", tag, "-=");
        a.append(value);
        push_owned(&mut b.raw_args, a);
        b
    }

    /// Prepends a value to a list tag (`-TAG^=VALUE`).
    pub fn tag_prepend(self, tag: &str, value: &str) -> (b: Self)
        ensures
            views(b.raw_args@) == views(self.raw_args@).push("-"@ + tag@ + "^="@ + value@),
            b == (WriteBuilder { raw_args: b.raw_args, ..self }),
    {
        let mut b = self;
        let mut a = concat3("-", tag, "^=");
        a.append(value);
        push_owned(&mut b.raw_args, a);
        b
    }

    /// Sets a tag from a file's content (`-TAG<=FILE`).
    pub fn tag_from_file(self, tag: &str, file_path: &str) -> (b: Self)
        ensures
            views(b.raw_args@) == views(self.raw_args@).push("-"@ + tag@ + "<="@ + file_path@),
            b == (WriteBuilder { raw_args: b.raw_args, ..self }),
    {
        let mut b = self;
        let mut a = concat3("-", tag, "<=");
        a.append(file_path);
        push_owned(&mut b.raw_args, a);
        b
    }

    /// Appends a file's content to a tag (`-TAG+<=FILE`).
    pub fn tag_append_from_file(self, tag: &str, file_path: &str) -> (b: Self)
        ensures
            views(b.raw_args@) == views(self.raw_args@).push("-"@ + tag@ + "+<="@ + file_path@),
            b == (WriteBuilder { raw_args: b.raw_args, ..self }),
    {
        let mut b = self;
        let mut a = concat3("-", tag, "+<=");
        a.append(file_path);
        push_owned(&mut b.raw_args, a);
        b
    }

    /// Shifts a tag's value (`-TAG+=OFFSET`).
    pub fn offset(self, tag: &str, offset: &str) -> (b: Self)
        ensures
            views(b.raw_args@) == views(self.raw_args@).push("-"@ + tag@ + "+="@ + offset@),
            b == (WriteBuilder { raw_args: b.raw_args, ..self }),
    {
        let mut b = self;
        let mut a = concat3("-", tag, "+=");
        a.append(offset);
        push_owned(&mut b.raw_args, a);
        b
    }

    /// Imports tags from JSON (`-j=FILE`).
    pub fn json_import(self, path: &str) -> (b: Self)
        ensures
            views(b.raw_args@) == views(self.raw_args@).push("-j="@ + path@),
            b == (WriteBuilder { raw_args: b.raw_args, ..self }),
    {
        let mut b = self;
        let a = concat2("-j=", path);
        push_owned(&mut b.raw_args, a);
        b
    }

    /// Imports tags from JSON, appending to lists (`-j+=FILE`).
    pub fn json_append(self, path: &str) -> (b: Self)
        ensures
            views(b.raw_args@) == views(self.raw_args@).push("-j+="@ + path@),
            b == (WriteBuilder { raw_args: b.raw_args, ..self }),
    {
        let mut b = self;
        let a = concat2("-j+=", path);
        push_owned(&mut b.raw_args, a);
        b
    }

    /// Imports tags from CSV (`-csv=FILE`).
    pub fn csv_import(self, path: &str) -> (b: Self)
        ensures
            views(b.raw_args@) == views(self.raw_args@).push("-csv="@ + path@),
            b == (WriteBuilder { raw_args: b.raw_args, ..self }),
    {
        let mut b = self;
        let a = concat2("-csv=", path);
        push_owned(&mut b.raw_args, a);
        b
    }

    /// Imports tags from CSV, appending to lists (`-csv+=FILE`).
    pub fn csv_append(self, path: &str) -> (b: Self)
        ensures
            views(b.raw_args@) == views(self.raw_args@).push("-csv+="@ + path@),
            b == (WriteBuilder { raw_args: b.raw_args, ..self }),
    {
        let mut b = self;
        let a = concat2("-csv+=", path);
        push_owned(&mut b.raw_args, a);
        b
    }

    /// The argument list of this write.
    pub fn build_args(&self) -> (r: Vec<String>)
        ensures
            views(r@) == write_args(*self),
    {
        let mut args: Vec<String> = Vec::new();
        push_flag(&mut args, self.overwrite_original, "-overwrite_original");
        assert(views(args@) =~= flag(self.overwrite_original, "-overwrite_original"@));
        push_flag(&mut args, !self.backup, "-overwrite_original_in_place");
        push_opt_pair(&mut args, "-o", &self.output_path);
        push_opt_pair(&mut args, "-if", &self.condition);
        push_flag(&mut args, self.ignore_minor_errors, "-m");
        push_flag(&mut args, self.preserve_time, "-P");
        push_flag(&mut args, self.quiet, "-q");
        push_flag(&mut args, self.zip_compression, "-z");
        let ghost v0 = views(args@);
        if self.fix_base_enabled {
            let a = match self.fix_base_offset {
                Some(o) => {
                    let mut a = owned("-F");
                    let d = crate::text::i64_dec(o);
                    a.append(d.as_str());
                    a
                },
                None => owned("-F"),
            };
            push_owned(&mut args, a);
        }
        assert(views(args@) =~= v0 + (if self.fix_base_enabled { seq![fix_base_arg(self.fix_base_offset)] } else { Seq::<Seq<char>>::empty() }));
        push_all(&mut args, &self.raw_args);
        push_wrapped(&mut args, &self.delete_tags);
        push_entries(&mut args, &self.tags);
        push_arg(&mut args, self.path.as_str());
        args
    }
}

/// The views of `(a, b)` string-slice pairs.
pub open spec fn pair_views(p: Seq<(&str, &str)>) -> Seq<(Seq<char>, Seq<char>)> {
    p.map_values(|x: (&str, &str)| (x.0@, x.1@))
}

/// The entries after setting each pair in turn.
pub open spec fn set_entries(
    e: Seq<(Seq<char>, Seq<char>)>,
    pairs: Seq<(Seq<char>, Seq<char>)>,
) -> Seq<(Seq<char>, Seq<char>)>
    decreases pairs.len(),
{
    if pairs.len() == 0 {
        e
    } else {
        set_entry(set_entries(e, pairs.drop_last()), pairs.last().0, pairs.last().1)
    }
}

/// The redirection arguments `PREFIX DST < SRC` of `(dst, src)` pairs.
pub open spec fn redirect_args(prefix: Seq<char>, pairs: Seq<(Seq<char>, Seq<char>)>) -> Seq<Seq<char>> {
    pairs.map_values(|p: (Seq<char>, Seq<char>)| prefix + p.0 + "<"@ + p.1)
}

fn push_redirects(args: &mut Vec<String>, prefix: &str, pairs: &[(&str, &str)])
    ensures
        views(final(args)@) == views(old(args)@) + redirect_args(prefix@, pair_views(pairs@)),
{
    let ghost before = views(args@);
    let mut i: usize = 0;
    assert(before + redirect_args(prefix@, pair_views(pairs@).take(0)) =~= before);
    while i < pairs.len()
        invariant
            i <= pairs@.len(),
            views(args@) == before + redirect_args(prefix@, pair_views(pairs@).take(i as int)),
        decreases pairs@.len() - i,
    {
        let (dst, src) = pairs[i];
        let mut a = concat3(prefix, dst, "<");
        a.append(src);
        push_owned(args, a);
        assert(views(args@) =~= before + redirect_args(prefix@, pair_views(pairs@).take(i + 1)));
        i = i + 1;
    }
    assert(pair_views(pairs@).take(pairs@.len() as int) =~= pair_views(pairs@));
}

fn push_wrapped(args: &mut Vec<String>, tags: &Vec<String>)
    ensures
        views(final(args)@) == views(old(args)@) + delete_args(views(tags@)),
{
    let ghost before = views(args@);
    let mut i: usize = 0;
    assert(before + delete_args(views(tags@).take(0)) =~= before);
    while i < tags.len()
        invariant
            i <= tags@.len(),
            views(args@) == before + delete_args(views(tags@).take(i as int)),
        decreases tags@.len() - i,
    {
        let a = concat3("-", tags[i].as_str(), "=");
        push_owned(args, a);
        assert(views(args@) =~= before + delete_args(views(tags@).take(i + 1)));
        i = i + 1;
    }
    assert(views(tags@).take(tags@.len() as int) =~= views(tags@));
}

fn push_entries(args: &mut Vec<String>, e: &Vec<(String, String)>)
    ensures
        views(final(args)@) == views(old(args)@) + entry_args(entry_views(e@)),
{
    let ghost before = views(args@);
    let mut i: usize = 0;
    assert(before + entry_args(entry_views(e@).take(0)) =~= before);
    while i < e.len()
        invariant
            i <= e@.len(),
            views(args@) == before + entry_args(entry_views(e@).take(i as int)),
        decreases e@.len() - i,
    {
        let mut a = concat3("-", e[i].0.as_str(), "=");
        a.append(e[i].1.as_str());
        push_owned(args, a);
        assert(views(args@) =~= before + entry_args(entry_views(e@).take(i + 1)));
        i = i + 1;
    }
    assert(entry_views(e@).take(e@.len() as int) =~= entry_views(e@));
}


// ---------------------------------------------------------------------------
// Write results
// ---------------------------------------------------------------------------

/// Whether a character is an ASCII digit.
pub open spec fn is_digit(c: char) -> bool {
    '0' <= c && c <= '9'
}

/// The ASCII digits of a text, in order.
pub open spec fn digits_of(s: Seq<char>) -> Seq<char>
    decreases s.len(),
{
    if s.len() == 0 {
        Seq::<char>::empty()
    } else if is_digit(s.last()) {
        digits_of(s.drop_last()).push(s.last())
    } else {
        digits_of(s.drop_last())
    }
}

/// The number that a string of ASCII digits denotes.
pub open spec fn digits_value(d: Seq<char>) -> nat
    decreases d.len(),
{
    if d.len() == 0 {
        0
    } else {
        digits_value(d.drop_last()) * 10 + ((d.last() as u32) - ('0' as u32)) as nat
    }
}

/// `str::parse::<u32>` of a string of ASCII digits: the number, unless
/// the string is empty or the number does not fit.
pub open spec fn parse_u32_digits(d: Seq<char>) -> Option<u32> {
    if d.len() == 0 || digits_value(d) > u32::MAX {
        None
    } else {
        Some(digits_value(d) as u32)
    }
}

proof fn lemma_digits_value_grows(d: Seq<char>, c: char)
    requires
        is_digit(c),
    ensures
        digits_value(d.push(c)) >= digits_value(d) * 10,
{
    assert(d.push(c).drop_last() =~= d);
}

/// Parses a string of ASCII digits as a `u32`.
pub fn parse_digits_u32(d: &[char]) -> (r: Option<u32>)
    requires
        forall|i: int| 0 <= i < d@.len() ==> is_digit(#[trigger] d@[i]),
    ensures
        r == parse_u32_digits(d@),
{
    if d.len() == 0 {
        return None;
    }
    let mut v: u64 = 0;
    let mut i: usize = 0;
    assert(d@.take(0) =~= Seq::<char>::empty());
    while i < d.len()
        invariant
            0 < d@.len(),
            i <= d@.len(),
            forall|k: int| 0 <= k < d@.len() ==> is_digit(#[trigger] d@[k]),
            v == digits_value(d@.take(i as int)),
            v <= u32::MAX,
        decreases d@.len() - i,
    {
        let c = d[i];
        assert(d@.take(i + 1) =~= d@.take(i as int).push(c));
        assert(d@.take(i + 1).drop_last() =~= d@.take(i as int));
        proof {
            lemma_digits_value_grows(d@.take(i as int), c);
        }
        let dig: u64 = ((c as u32) - ('0' as u32)) as u64;
        let nv = v * 10 + dig;
        if nv > 4294967295 {
            proof {
                lemma_digits_value_monotone(d@, i as int + 1);
            }
            return None;
        }
        v = nv;
        i = i + 1;
    }
    assert(d@.take(d@.len() as int) =~= d@);
    Some(v as u32)
}

proof fn lemma_digits_value_monotone(d: Seq<char>, k: int)
    requires
        0 <= k <= d.len(),
        forall|i: int| 0 <= i < d.len() ==> is_digit(#[trigger] d[i]),
    ensures
        digits_value(d) >= digits_value(d.take(k)),
    decreases d.len() - k,
{
    if k < d.len() {
        lemma_digits_value_monotone(d, k + 1);
        assert(d.take(k + 1) =~= d.take(k).push(d[k]));
        lemma_digits_value_grows(d.take(k), d[k]);
    } else {
        assert(d.take(k) =~= d);
    }
}

/// Keeps the ASCII digits of a text.
pub fn digits_in(s: &[char]) -> (r: Vec<char>)
    ensures
        r@ == digits_of(s@),
        forall|i: int| 0 <= i < r@.len() ==> is_digit(#[trigger] r@[i]),
{
    let mut r: Vec<char> = Vec::new();
    let mut i: usize = 0;
    assert(s@.take(0) =~= Seq::<char>::empty());
    while i < s.len()
        invariant
            i <= s@.len(),
            r@ == digits_of(s@.take(i as int)),
            forall|k: int| 0 <= k < r@.len() ==> is_digit(#[trigger] r@[k]),
        decreases s@.len() - i,
    {
        let c = s[i];
        assert(s@.take(i + 1).drop_last() =~= s@.take(i as int));
        if '0' <= c && c <= '9' {
            r.push(c);
        }
        i = i + 1;
    }
    assert(s@.take(s@.len() as int) =~= s@);
    r
}

/// Whether a line reports updated files.
pub open spec fn reports_updated(l: Seq<char>) -> bool {
    contains_seq(l, "image files updated"@)
}

/// Whether a line reports updated or unchanged files.
pub open spec fn reports_done(l: Seq<char>) -> bool {
    contains_seq(l, "image files updated"@) || contains_seq(l, "image files unchanged"@)
}

fn line_reports_done(line: &str) -> (b: bool)
    ensures
        b == reports_done(line@),
{
    str_contains(line, "image files updated") || str_contains(line, "image files unchanged")
}

/// The number of updated files that a line reports: the digits before
/// the phrase `image files updated`, read as a `u32`.
pub open spec fn updated_in_line(l: Seq<char>) -> Option<u32> {
    match find_seq(l, "image files updated"@) {
        Some(p) => parse_u32_digits(digits_of(l.take(p))),
        None => None,
    }
}

/// The count that a line reports, when it reports updated files.
fn updated_in(line: &str) -> (r: Option<Option<u32>>)
    ensures
        r is None <==> !reports_updated(line@),
        r matches Some(n) ==> n == updated_in_line(line@),
{
    let phrase = chars_of("image files updated");
    let c = chars_of(line);
    match find_chars(&c, &phrase) {
        Some(pos) => {
            let mut before: Vec<char> = Vec::new();
            let mut k: usize = 0;
            while k < pos
                invariant
                    k <= pos,
                    pos <= c@.len(),
                    before@ == c@.take(k as int),
                decreases pos - k,
            {
                before.push(c[k]);
                k = k + 1;
                assert(before@ =~= c@.take(k as int));
            }
            let ds = digits_in(&before);
            Some(parse_digits_u32(&ds))
        },
        None => None,
    }
}

/// The outcome of a write: the file and the lines ExifTool printed.
#[derive(Debug, Clone)]
pub struct WriteResult {
    pub path: String,
    pub lines: Vec<String>,
}

impl WriteResult {
    /// Whether some line reports updated or unchanged files.
    pub fn is_success(&self) -> (b: bool)
        ensures
            b == exists|i: int| 0 <= i < self.lines@.len() && reports_done(#[trigger] views(self.lines@)[i]),
    {
        let mut i: usize = 0;
        while i < self.lines.len()
            invariant
                i <= self.lines@.len(),
                forall|j: int| 0 <= j < i ==> !reports_done(#[trigger] views(self.lines@)[j]),
            decreases self.lines@.len() - i,
        {
            assert(views(self.lines@)[i as int] == self.lines@[i as int]@);
            if line_reports_done(self.lines[i].as_str()) {
                return true;
            }
            i = i + 1;
        }
        false
    }

    /// The number of updated files, read from the first line that reports
    /// updated files; `None` when no line does or its number is not a
    /// `u32`.
    #[verifier::rlimit(50)]
    pub fn updated_count(&self) -> (n: Option<u32>)
        ensures
            (forall|i: int| 0 <= i < self.lines@.len() ==> !reports_updated(#[trigger] views(self.lines@)[i])) ==> n is None,
            forall|i: int| 0 <= i < self.lines@.len() && reports_updated(#[trigger] views(self.lines@)[i])
                && (forall|j: int| 0 <= j < i ==> !reports_updated(#[trigger] views(self.lines@)[j]))
                ==> n == updated_in_line(views(self.lines@)[i]),
    {
        let mut i: usize = 0;
        while i < self.lines.len()
            invariant
                i <= self.lines@.len(),
                forall|j: int| 0 <= j < i ==> !reports_updated(#[trigger] views(self.lines@)[j]),
            decreases self.lines@.len() - i,
        {
            assert(views(self.lines@)[i as int] == self.lines@[i as int]@);
            match updated_in(self.lines[i].as_str()) {
                Some(n) => {
                    return n;
                },
                None => {},
            }
            i = i + 1;
        }
        None
    }
}

impl WriteResult {
    /// Where ExifTool keeps the backup of the written file: the file's
    /// path with `_original` behind it (`photo.jpg_original`,
    /// `photo_original`); whether the backup exists is for the caller to
    /// check.
    pub fn backup_candidate(&self) -> (r: String)
        ensures
            r@ == self.path@ + "_original"@,
    {
        concat2(self.path.as_str(), "_original")
    }
}

/// The result of a write whose response is `response`: the first error
/// line as a process error, or the printed lines.
pub fn parse_write_response(response: Response, path: String) -> (r: Result<WriteResult>)
    ensures
        (exists|i: int| 0 <= i < response.spec_lines().len() && is_error_line(#[trigger] response.spec_lines()[i]))
            ==> (r matches Err(Error::Process { message: m, exit_code: None })
                && exists|i: int| 0 <= i < response.spec_lines().len() && is_error_line(#[trigger] response.spec_lines()[i])
                    && m@ == response.spec_lines()[i]
                    && forall|j: int| 0 <= j < i ==> !is_error_line(#[trigger] response.spec_lines()[j])),
        (forall|i: int| 0 <= i < response.spec_lines().len() ==> !is_error_line(#[trigger] response.spec_lines()[i]))
            ==> (r matches Ok(w) && w.path == path && views(w.lines@) == response.spec_lines()),
{
    match response.error_message() {
        Some(m) => Err(Error::Process { message: m, exit_code: None }),
        None => {
            let lines = response.lines().clone();
            Ok(WriteResult { path, lines })
        },
    }
}

} // verus!
