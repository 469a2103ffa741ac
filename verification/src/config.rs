//! Comparing metadata, hex dumps and verbose output.

use vstd::prelude::*;
use crate::args::{flag, push_arg, push_flag, push_owned};
use crate::text::{concat2, nat_dec, owned, push_dec, views};
use crate::types::TagId;

verus! {

/// The comparison of the metadata of two files.
#[derive(Debug, Clone)]
pub struct DiffResult {
    pub is_identical: bool,
    pub source_only: Vec<String>,
    pub target_only: Vec<String>,
    /// Tag, value in the source, value in the target.
    pub different: Vec<(String, String, String)>,
}

/// The views of the entries of `different`.
pub open spec fn triple_views(v: Seq<(String, String, String)>) -> Seq<(Seq<char>, Seq<char>, Seq<char>)> {
    v.map_values(|e: (String, String, String)| (e.0@, e.1@, e.2@))
}

impl DiffResult {
    /// No difference found yet.
    pub fn new() -> (d: Self)
        ensures
            d.is_identical,
            d.source_only@.len() == 0,
            d.target_only@.len() == 0,
            d.different@.len() == 0,
    {
        DiffResult {
            is_identical: true,
            source_only: Vec::new(),
            target_only: Vec::new(),
            different: Vec::new(),
        }
    }

    /// Records a tag that only the source has.
    pub fn add_source_only(&mut self, tag: &str)
        ensures
            !final(self).is_identical,
            views(final(self).source_only@) == views(old(self).source_only@).push(tag@),
            final(self).target_only == old(self).target_only,
            final(self).different == old(self).different,
    {
        self.is_identical = false;
        let ghost before = views(self.source_only@);
        self.source_only.push(owned(tag));
        assert(views(self.source_only@) =~= before.push(tag@));
    }

    /// Records a tag that only the target has.
    pub fn add_target_only(&mut self, tag: &str)
        ensures
            !final(self).is_identical,
            views(final(self).target_only@) == views(old(self).target_only@).push(tag@),
            final(self).source_only == old(self).source_only,
            final(self).different == old(self).different,
    {
        self.is_identical = false;
        let ghost before = views(self.target_only@);
        self.target_only.push(owned(tag));
        assert(views(self.target_only@) =~= before.push(tag@));
    }

    /// Records a tag whose values differ.
    pub fn add_different(&mut self, tag: &str, source: &str, target: &str)
        ensures
            !final(self).is_identical,
            triple_views(final(self).different@) == triple_views(old(self).different@).push(
                (tag@, source@, target@),
            ),
            final(self).source_only == old(self).source_only,
            final(self).target_only == old(self).target_only,
    {
        self.is_identical = false;
        let ghost before = triple_views(self.different@);
        self.different.push((owned(tag), owned(source), owned(target)));
        assert(triple_views(self.different@) =~= before.push((tag@, source@, target@)));
    }
}

impl Default for DiffResult {
    fn default() -> (d: Self)
        ensures
            d.is_identical,
            d.source_only@.len() == 0,
            d.target_only@.len() == 0,
            d.different@.len() == 0,
    {
        DiffResult::new()
    }
}

/// One tag of a file's metadata: its name, a rendering of its value that
/// tells different values apart, and the value's text.
#[derive(Debug, Clone)]
pub struct MetadataEntry {
    pub tag: String,
    pub value: String,
    pub text: String,
}

/// Whether some entry has the tag.
pub open spec fn has_tag(m: Seq<MetadataEntry>, t: Seq<char>) -> bool {
    exists|j: int| 0 <= j < m.len() && (#[trigger] m[j]).tag@ == t
}

/// Whether no two entries have the same tag.
pub open spec fn tags_unique(m: Seq<MetadataEntry>) -> bool {
    forall|i: int, j: int| 0 <= i < j < m.len() ==> (#[trigger] m[i]).tag@ != (#[trigger] m[j]).tag@
}

/// The entry with the tag (meaningful where there is one).
pub open spec fn entry_for(m: Seq<MetadataEntry>, t: Seq<char>) -> MetadataEntry {
    m[choose|j: int| 0 <= j < m.len() && (#[trigger] m[j]).tag@ == t]
}

/// The tags of `a`, in order, that `b` lacks.
pub open spec fn only_in(a: Seq<MetadataEntry>, b: Seq<MetadataEntry>) -> Seq<Seq<char>>
    decreases a.len(),
{
    if a.len() == 0 {
        Seq::<Seq<char>>::empty()
    } else if has_tag(b, a.last().tag@) {
        only_in(a.drop_last(), b)
    } else {
        only_in(a.drop_last(), b).push(a.last().tag@)
    }
}

/// The tags of `a`, in order, whose value in `b` differs, each with its
/// text in `a` and in `b`.
pub open spec fn differing(a: Seq<MetadataEntry>, b: Seq<MetadataEntry>) -> Seq<(Seq<char>, Seq<char>, Seq<char>)>
    decreases a.len(),
{
    if a.len() == 0 {
        Seq::empty()
    } else if has_tag(b, a.last().tag@) && entry_for(b, a.last().tag@).value@ != a.last().value@ {
        differing(a.drop_last(), b).push((a.last().tag@, a.last().text@, entry_for(b, a.last().tag@).text@))
    } else {
        differing(a.drop_last(), b)
    }
}

/// The position of the entry with the tag.
fn find_tag(m: &Vec<MetadataEntry>, t: &str) -> (r: Option<usize>)
    requires
        tags_unique(m@),
    ensures
        r matches Some(j) ==> j < m@.len() && m@[j as int].tag@ == t@ && has_tag(m@, t@)
            && entry_for(m@, t@) == m@[j as int],
        r is None ==> !has_tag(m@, t@),
{
    let mut j: usize = 0;
    while j < m.len()
        invariant
            j <= m@.len(),
            tags_unique(m@),
            forall|k: int| 0 <= k < j ==> (#[trigger] m@[k]).tag@ != t@,
        decreases m@.len() - j,
    {
        if crate::text::str_eq(m[j].tag.as_str(), t) {
            proof {
                assert(has_tag(m@, t@));
                let c = choose|k: int| 0 <= k < m@.len() && (#[trigger] m@[k]).tag@ == t@;
                assert(m@[j as int].tag@ == t@);
                if c != j {
                    if c < j {
                        assert(m@[c].tag@ != m@[j as int].tag@);
                    } else {
                        assert(m@[j as int].tag@ != m@[c].tag@);
                    }
                }
            }
            return Some(j);
        }
        j = j + 1;
    }
    None
}

/// Compares the metadata of two files, each given as entries with distinct
/// tags: the tags only the source has, those only the target has, and
/// those whose values differ; identical when there are none.
pub fn compare_metadata(source: &Vec<MetadataEntry>, target: &Vec<MetadataEntry>) -> (d: DiffResult)
    requires
        tags_unique(source@),
        tags_unique(target@),
    ensures
        views(d.source_only@) == only_in(source@, target@),
        views(d.target_only@) == only_in(target@, source@),
        triple_views(d.different@) == differing(source@, target@),
        d.is_identical == (d.source_only@.len() == 0 && d.target_only@.len() == 0
            && d.different@.len() == 0),
{
    let mut d = DiffResult::new();
    let mut i: usize = 0;
    assert(source@.take(0) =~= Seq::<MetadataEntry>::empty());
    while i < source.len()
        invariant
            i <= source@.len(),
            tags_unique(target@),
            views(d.source_only@) == only_in(source@.take(i as int), target@),
            triple_views(d.different@) == differing(source@.take(i as int), target@),
            d.target_only@.len() == 0,
            d.is_identical == (d.source_only@.len() == 0 && d.different@.len() == 0),
        decreases source@.len() - i,
    {
        let e = &source[i];
        assert(source@.take(i + 1).drop_last() =~= source@.take(i as int));
        assert(source@.take(i + 1).last() == source@[i as int]);
        match find_tag(target, e.tag.as_str()) {
            Some(j) => {
                if !crate::text::str_eq(e.value.as_str(), target[j].value.as_str()) {
                    d.add_different(e.tag.as_str(), e.text.as_str(), target[j].text.as_str());
                }
            },
            None => {
                d.add_source_only(e.tag.as_str());
            },
        }
        assert(views(d.source_only@).len() == d.source_only@.len());
        assert(triple_views(d.different@).len() == d.different@.len());
        i = i + 1;
    }
    assert(source@.take(source@.len() as int) =~= source@);
    let mut k: usize = 0;
    assert(target@.take(0) =~= Seq::<MetadataEntry>::empty());
    while k < target.len()
        invariant
            k <= target@.len(),
            tags_unique(source@),
            views(d.source_only@) == only_in(source@, target@),
            triple_views(d.different@) == differing(source@, target@),
            views(d.target_only@) == only_in(target@.take(k as int), source@),
            d.is_identical == (d.source_only@.len() == 0 && d.target_only@.len() == 0
                && d.different@.len() == 0),
        decreases target@.len() - k,
    {
        let e = &target[k];
        assert(target@.take(k + 1).drop_last() =~= target@.take(k as int));
        assert(target@.take(k + 1).last() == target@[k as int]);
        match find_tag(source, e.tag.as_str()) {
            Some(_) => {},
            None => {
                d.add_target_only(e.tag.as_str());
            },
        }
        assert(views(d.target_only@).len() == d.target_only@.len());
        k = k + 1;
    }
    assert(target@.take(target@.len() as int) =~= target@);
    d
}

proof fn lemma_compare_self_prefix(m: Seq<MetadataEntry>, n: int)
    requires
        tags_unique(m),
        0 <= n <= m.len(),
    ensures
        only_in(m.take(n), m) == Seq::<Seq<char>>::empty(),
        differing(m.take(n), m) == Seq::<(Seq<char>, Seq<char>, Seq<char>)>::empty(),
    decreases n,
{
    if n > 0 {
        lemma_compare_self_prefix(m, n - 1);
        let a = m.take(n);
        assert(a.drop_last() =~= m.take(n - 1));
        assert(a.last() == m[n - 1]);
        assert(has_tag(m, m[n - 1].tag@));
        let c = choose|j: int| 0 <= j < m.len() && (#[trigger] m[j]).tag@ == m[n - 1].tag@;
        if c != n - 1 {
            if c < n - 1 {
                assert(m[c].tag@ != m[n - 1].tag@);
            } else {
                assert(m[n - 1].tag@ != m[c].tag@);
            }
        }
    } else {
        assert(m.take(0) =~= Seq::<MetadataEntry>::empty());
    }
}

/// Comparing the metadata of a file with itself finds no difference: no
/// tag only on one side and no differing value.
pub proof fn law_compare_self_identical(m: Seq<MetadataEntry>)
    requires
        tags_unique(m),
    ensures
        only_in(m, m) == Seq::<Seq<char>>::empty(),
        differing(m, m) == Seq::<(Seq<char>, Seq<char>, Seq<char>)>::empty(),
{
    lemma_compare_self_prefix(m, m.len() as int);
    assert(m.take(m.len() as int) =~= m);
}

/// Whether the tag of entry `i` of `a` is also in `b` with another value.
pub open spec fn differs_at(a: Seq<MetadataEntry>, b: Seq<MetadataEntry>, i: int) -> bool {
    has_tag(b, a[i].tag@) && entry_for(b, a[i].tag@).value@ != a[i].value@
}

/// Every shared tag whose values differ is reported with its text on
/// each side; every report is such a tag; and no tag is reported twice.
pub proof fn law_every_difference_reported(a: Seq<MetadataEntry>, b: Seq<MetadataEntry>)
    requires
        tags_unique(a),
    ensures
        forall|i: int| 0 <= i < a.len() && differs_at(a, b, i) ==> exists|k: int|
            0 <= k < differing(a, b).len() && #[trigger] differing(a, b)[k] == (a[i].tag@, a[i].text@, entry_for(
                b,
                a[i].tag@,
            ).text@),
        forall|k: int| 0 <= k < differing(a, b).len() ==> exists|i: int|
            0 <= i < a.len() && differs_at(a, b, i) && #[trigger] differing(a, b)[k] == (a[i].tag@, a[i].text@, entry_for(
                b,
                a[i].tag@,
            ).text@),
        forall|k1: int, k2: int| 0 <= k1 < k2 < differing(a, b).len() ==> (#[trigger] differing(a, b)[k1]).0
            != (#[trigger] differing(a, b)[k2]).0,
    decreases a.len(),
{
    let d = differing(a, b);
    if a.len() > 0 {
        let f = a.drop_last();
        assert forall|i: int, j: int| 0 <= i < j < f.len() implies (#[trigger] f[i]).tag@ != (#[trigger] f[j]).tag@ by {
            assert(f[i] == a[i] && f[j] == a[j]);
        }
        law_every_difference_reported(f, b);
        let df = differing(f, b);
        let n = a.len() - 1;
        assert forall|i: int| 0 <= i < f.len() implies differs_at(f, b, i) == differs_at(a, b, i) && f[i] == a[i] by {
            assert(f[i] == a[i]);
        }
        if differs_at(a, b, n) {
            assert(d == df.push((a[n].tag@, a[n].text@, entry_for(b, a[n].tag@).text@)));
            assert forall|i: int| 0 <= i < a.len() && differs_at(a, b, i) implies exists|k: int|
                0 <= k < d.len() && #[trigger] d[k] == (a[i].tag@, a[i].text@, entry_for(b, a[i].tag@).text@) by {
                if i < n {
                    assert(differs_at(f, b, i));
                    let k = choose|k: int| 0 <= k < df.len() && #[trigger] df[k] == (f[i].tag@, f[i].text@, entry_for(b, f[i].tag@).text@);
                    assert(d[k] == df[k]);
                } else {
                    assert(d[df.len() as int] == (a[n].tag@, a[n].text@, entry_for(b, a[n].tag@).text@));
                }
            }
            assert forall|k: int| 0 <= k < d.len() implies exists|i: int|
                0 <= i < a.len() && differs_at(a, b, i) && #[trigger] d[k] == (a[i].tag@, a[i].text@, entry_for(b, a[i].tag@).text@) by {
                if k < df.len() {
                    assert(d[k] == df[k]);
                    let i = choose|i: int| 0 <= i < f.len() && differs_at(f, b, i) && #[trigger] df[k] == (f[i].tag@, f[i].text@, entry_for(b, f[i].tag@).text@);
                    assert(a[i] == f[i]);
                } else {
                    assert(d[k] == (a[n].tag@, a[n].text@, entry_for(b, a[n].tag@).text@));
                }
            }
            assert forall|k1: int, k2: int| 0 <= k1 < k2 < d.len() implies (#[trigger] d[k1]).0 != (#[trigger] d[k2]).0 by {
                if k2 < df.len() {
                    assert(d[k1] == df[k1] && d[k2] == df[k2]);
                } else {
                    assert(d[k1] == df[k1]);
                    let i = choose|i: int| 0 <= i < f.len() && differs_at(f, b, i) && #[trigger] df[k1] == (f[i].tag@, f[i].text@, entry_for(b, f[i].tag@).text@);
                    assert(a[i] == f[i]);
                    assert(a[i].tag@ != a[n].tag@);
                }
            }
        } else {
            assert(d == df);
            assert forall|i: int| 0 <= i < a.len() && differs_at(a, b, i) implies exists|k: int|
                0 <= k < d.len() && #[trigger] d[k] == (a[i].tag@, a[i].text@, entry_for(b, a[i].tag@).text@) by {
                assert(i < n);
                assert(differs_at(f, b, i));
                let k = choose|k: int| 0 <= k < df.len() && #[trigger] df[k] == (f[i].tag@, f[i].text@, entry_for(b, f[i].tag@).text@);
            }
            assert forall|k: int| 0 <= k < d.len() implies exists|i: int|
                0 <= i < a.len() && differs_at(a, b, i) && #[trigger] d[k] == (a[i].tag@, a[i].text@, entry_for(b, a[i].tag@).text@) by {
                let i = choose|i: int| 0 <= i < f.len() && differs_at(f, b, i) && #[trigger] df[k] == (f[i].tag@, f[i].text@, entry_for(b, f[i].tag@).text@);
                assert(a[i] == f[i]);
            }
        }
    }
}

/// Options of a hex dump (`-htmlDump[OFFSET]`).
#[derive(Debug, Clone)]
pub struct HexDumpOptions {
    pub start_offset: Option<usize>,
}

impl HexDumpOptions {
    /// No start offset.
    pub fn new() -> (o: Self)
        ensures
            o.start_offset is None,
    {
        HexDumpOptions { start_offset: None }
    }

    /// Starts the dump at an offset.
    pub fn start(self, offset: usize) -> (o: Self)
        ensures
            o.start_offset == Some(offset),
    {
        HexDumpOptions { start_offset: Some(offset) }
    }
}

impl Default for HexDumpOptions {
    fn default() -> (o: Self)
        ensures
            o.start_offset is None,
    {
        HexDumpOptions::new()
    }
}

/// The arguments of a hex dump of a file.
pub open spec fn hex_dump_arg_list(o: HexDumpOptions, path: Seq<char>) -> Seq<Seq<char>> {
    match o.start_offset {
        Some(n) => seq!["-htmlDump"@ + nat_dec(n as nat), path],
        None => seq!["-htmlDump"@, path],
    }
}

/// The arguments of a hex dump of a file: `-htmlDump`, with the start
/// offset behind it when there is one, and the file.
pub fn hex_dump_args(options: &HexDumpOptions, path: &str) -> (r: Vec<String>)
    ensures
        views(r@) == hex_dump_arg_list(*options, path@),
{
    let mut args: Vec<String> = Vec::new();
    match options.start_offset {
        Some(n) => {
            let mut a = owned("-htmlDump");
            push_dec(&mut a, n as u64);
            push_owned(&mut args, a);
        },
        None => {
            push_arg(&mut args, "-htmlDump");
        },
    }
    push_arg(&mut args, path);
    args
}

/// The arguments that print one tag in hexadecimal: `-H`, `-TAG` and the
/// file.
pub fn hex_dump_tag_args(tag: TagId, path: &str) -> (r: Vec<String>)
    ensures
        views(r@) == seq!["-H"@, "-"@ + tag.0@, path@],
{
    let mut args: Vec<String> = Vec::new();
    push_arg(&mut args, "-H");
    push_owned(&mut args, concat2("-", tag.name()));
    push_arg(&mut args, path);
    args
}

/// Options of verbose output.
#[derive(Debug, Clone)]
pub struct VerboseOptions {
    /// The level, at most 5.
    pub level: u8,
    pub html_format: bool,
}

/// The arguments of verbose output: `-vLEVEL`, and `-htmlDump` for HTML.
pub open spec fn verbose_arg_list(o: VerboseOptions) -> Seq<Seq<char>> {
    seq!["-v"@ + nat_dec(o.level as nat)] + flag(o.html_format, "-htmlDump"@)
}

impl VerboseOptions {
    /// Verbose output at a level, capped at 5.
    pub fn new(level: u8) -> (o: Self)
        ensures
            o.level == (if level < 5 { level } else { 5u8 }),
            !o.html_format,
    {
        let l: u8 = if level < 5 { level } else { 5 };
        VerboseOptions { level: l, html_format: false }
    }

    /// Asks for HTML output.
    pub fn html(self) -> (o: Self)
        ensures
            o.level == self.level,
            o.html_format,
    {
        VerboseOptions { html_format: true, ..self }
    }

    /// The arguments that ask for this output.
    pub fn args(&self) -> (r: Vec<String>)
        ensures
            views(r@) == verbose_arg_list(*self),
    {
        let mut args: Vec<String> = Vec::new();
        let mut a = owned("-v");
        push_dec(&mut a, self.level as u64);
        push_owned(&mut args, a);
        push_flag(&mut args, self.html_format, "-htmlDump");
        args
    }
}

/// The arguments of a verbose dump of a file: the options' arguments and
/// the file.
pub fn verbose_dump_args(options: &VerboseOptions, path: &str) -> (r: Vec<String>)
    ensures
        views(r@) == verbose_arg_list(*options).push(path@),
{
    let mut args = options.args();
    push_arg(&mut args, path);
    args
}

} // verus!
