//! Query builders: what to read from a file, as ExifTool arguments.
//!
//! A builder only collects options; `build_args` turns them into the
//! argument list that is sent to the ExifTool process.

use vstd::prelude::*;
use crate::args::{
    flag, opt_pair, opt_view, pairs, prefixed, push_all, push_arg, push_flag, push_opt_pair,
    push_owned, push_pairs, push_prefixed,
};
use crate::text::{concat2, concat3, nat_dec, owned, push_dec, str_eq, views};
use crate::types::TagId;

verus! {

/// Escaping of output values.
#[derive(Debug, Clone, Copy, PartialEq, Eq)]
pub enum EscapeFormat {
    /// HTML escapes (`-E`).
    Html,
    /// XML escapes (`-ex`).
    Xml,
    /// C escapes (`-ec`).
    C,
}

/// The option that selects an escape format.
pub open spec fn escape_flag(f: EscapeFormat) -> Seq<char> {
    match f {
        EscapeFormat::Html => "-E"@,
        EscapeFormat::Xml => "-ex"@,
        EscapeFormat::C => "-ec"@,
    }
}

/// An option name followed by a number, or the bare name when the number
/// is the one that the bare name already means.
pub open spec fn numbered(name: Seq<char>, n: nat, bare: nat) -> Seq<char> {
    if n == bare {
        name
    } else {
        name + nat_dec(n)
    }
}

fn push_numbered(args: &mut Vec<String>, name: &str, n: u64, bare: u64)
    ensures
        views(final(args)@) == views(old(args)@).push(numbered(name@, n as nat, bare as nat)),
{
    if n == bare {
        push_arg(args, name);
    } else {
        let mut s = owned(name);
        push_dec(&mut s, n);
        push_owned(args, s);
    }
}

/// `-api`/`-userParam` value: `opt=value`, or the bare option.
pub open spec fn keyed(opt: Seq<char>, value: Option<Seq<char>>) -> Seq<char> {
    match value {
        Some(v) => opt + "="@ + v,
        None => opt,
    }
}

fn keyed_string(opt: &str, value: Option<&str>) -> (s: String)
    ensures
        s@ == keyed(opt@, match value { Some(v) => Some(v@), None => None }),
{
    match value {
        Some(v) => concat3(opt, "=", v),
        None => owned(opt),
    }
}

/// The view of an optional string slice.
pub open spec fn opt_str(o: Option<&str>) -> Option<Seq<char>> {
    match o {
        Some(s) => Some(s@),
        None => None,
    }
}

/// The view of a list of string slices.
pub open spec fn str_views(v: Seq<&str>) -> Seq<Seq<char>> {
    v.map_values(|s: &str| s@)
}

fn push_strs(dst: &mut Vec<String>, src: &[&str])
    ensures
        views(final(dst)@) == views(old(dst)@) + str_views(src@),
{
    let ghost before = views(dst@);
    let mut i: usize = 0;
    assert(before + str_views(src@).take(0) =~= before);
    while i < src.len()
        invariant
            i <= src@.len(),
            views(dst@) == before + str_views(src@).take(i as int),
        decreases src@.len() - i,
    {
        push_arg(dst, src[i]);
        assert(views(dst@) =~= before + str_views(src@).take(i + 1));
        i = i + 1;
    }
    assert(str_views(src@).take(src@.len() as int) =~= str_views(src@));
}

/// The `-echo`/`-echo2` option pairs: `-echo2` when the target is
/// `stderr`, `-echo` otherwise, each followed by its text.
pub open spec fn echo_args(e: Seq<(String, Option<String>)>) -> Seq<Seq<char>>
    decreases e.len(),
{
    if e.len() == 0 {
        Seq::<Seq<char>>::empty()
    } else {
        let (text, target) = e.last();
        let option = match target {
            Some(t) => if t@ == "stderr"@ {
                "-echo2"@
            } else {
                "-echo"@
            },
            None => "-echo"@,
        };
        echo_args(e.drop_last()) + seq![option, text@]
    }
}

fn push_echo(args: &mut Vec<String>, e: &Vec<(String, Option<String>)>)
    ensures
        views(final(args)@) == views(old(args)@) + echo_args(e@),
{
    let ghost before = views(args@);
    let mut i: usize = 0;
    assert(e@.take(0) =~= Seq::<(String, Option<String>)>::empty());
    assert(before + echo_args(e@.take(0)) =~= before);
    while i < e.len()
        invariant
            i <= e@.len(),
            views(args@) == before + echo_args(e@.take(i as int)),
        decreases e@.len() - i,
    {
        let (text, target) = &e[i];
        let stderr = match target {
            Some(t) => str_eq(t.as_str(), "stderr"),
            None => false,
        };
        if stderr {
            push_arg(args, "-echo2");
        } else {
            push_arg(args, "-echo");
        }
        push_arg(args, text.as_str());
        assert(e@.take(i + 1).drop_last() =~= e@.take(i as int));
        assert(views(args@) =~= before + echo_args(e@.take(i + 1)));
        i = i + 1;
    }
    assert(e@.take(e@.len() as int) =~= e@);
}

/// A query of one file's metadata.
pub struct QueryBuilder {
    pub path: String,
    pub args: Vec<String>,
    pub include_unknown: bool,
    pub include_duplicates: bool,
    pub raw_values: bool,
    pub group_by_category: bool,
    pub no_composite: bool,
    pub extract_embedded: Option<u8>,
    pub extensions: Vec<String>,
    pub ignore_dirs: Vec<String>,
    pub recursive: bool,
    /// Whether progress was asked for.
    pub progress: bool,
    pub progress_interval: Option<u32>,
    pub progress_title: Option<String>,
    pub specific_tags: Vec<String>,
    pub excluded_tags: Vec<String>,
    pub decimal: bool,
    pub escape_format: Option<EscapeFormat>,
    pub force_print: bool,
    pub group_names: Option<u8>,
    pub html_format: bool,
    pub hex: bool,
    pub long_format: bool,
    pub latin: bool,
    pub short_format: Option<u8>,
    pub tab_format: bool,
    pub table_format: bool,
    pub text_out: Option<String>,
    pub tag_out: Option<String>,
    pub tag_out_ext: Vec<String>,
    pub list_item: Option<u32>,
    pub file_order: Option<(String, bool)>,
    pub quiet: bool,
    pub html_dump: Option<u32>,
    pub php_format: bool,
    pub plot_format: bool,
    pub args_format: bool,
    pub common_args: Vec<String>,
    pub echo: Vec<(String, Option<String>)>,
    pub efile: Option<String>,
}

/// The arguments of a query, in the order ExifTool receives them: `-json`
/// when JSON output is asked for, the output options, the file selection
/// options, the custom arguments, `-TAG` for each requested tag, `--TAG`
/// for each excluded tag, and last the file path.
pub open spec fn query_args(q: QueryBuilder, json: bool) -> Seq<Seq<char>> {
    flag(json, "-json"@)
    + flag(q.group_by_category, "-g1"@)
    + flag(q.include_unknown, "-u"@)
    + flag(q.include_duplicates, "-a"@)
    + flag(q.raw_values, "-n"@)
    + flag(q.decimal, "-D"@)
    + opt_one(match q.escape_format { Some(f) => Some(escape_flag(f)), None => None })
    + flag(q.force_print, "-f"@)
    + opt_one(match q.group_names { Some(l) => Some(numbered("-G"@, l as nat, 1)), None => None })
    + flag(q.html_format, "-h"@)
    + flag(q.hex, "-H"@)
    + flag(q.long_format, "-l"@)
    + flag(q.latin, "-L"@)
    + opt_one(match q.short_format { Some(l) => Some(if l == 0 { "-S"@ } else { "-s"@ + nat_dec(l as nat) }), None => None })
    + flag(q.tab_format, "-t"@)
    + flag(q.table_format, "-T"@)
    + opt_pair("-w"@, opt_view(q.text_out))
    + opt_pair("-W"@, opt_view(q.tag_out))
    + pairs("-Wext"@, views(q.tag_out_ext@))
    + opt_pair("-listItem"@, match q.list_item { Some(i) => Some(nat_dec(i as nat)), None => None })
    + opt_pair("-fileOrder"@, match q.file_order { Some((tag, desc)) => Some((if desc { "-"@ } else { ""@ }) + tag@), None => None })
    + flag(q.quiet, "-q"@)
    + opt_one(match q.html_dump { Some(o) => Some("-htmlDump"@ + nat_dec(o as nat)), None => None })
    + flag(q.php_format, "-php"@)
    + flag(q.plot_format, "-plot"@)
    + flag(q.args_format, "-args"@)
    + pairs("-common_args"@, views(q.common_args@))
    + echo_args(q.echo@)
    + opt_pair("-efile"@, opt_view(q.efile))
    + flag(q.no_composite, "-e"@)
    + opt_one(match q.extract_embedded { Some(l) => Some(numbered("-ee"@, l as nat, 1)), None => None })
    + pairs("-ext"@, views(q.extensions@))
    + pairs("-i"@, views(q.ignore_dirs@))
    + flag(q.recursive, "-r"@)
    + opt_one(if q.progress { Some(progress_arg(q.progress_interval, opt_view(q.progress_title))) } else { None })
    + views(q.args@)
    + prefixed("-"@, views(q.specific_tags@))
    + prefixed("--"@, views(q.excluded_tags@))
    + seq![q.path@]
}

/// A query names its file last, and asks for JSON first exactly when
/// JSON output is wanted.
#[verifier::rlimit(80)]
pub proof fn law_query_args_frame(q: QueryBuilder, json: bool)
    ensures
        query_args(q, json).len() >= 1,
        query_args(q, json).last() == q.path@,
        json ==> query_args(q, json)[0] == "-json"@,
{
    reveal(flag);
    let r = query_args(q, json);
    assert(r.last() == q.path@);
    if json {
        assert(flag(json, "-json"@) == seq!["-json"@]);
    }
}

impl QueryBuilder {
    /// A query of the file at `path` with no options set.
    pub fn new(path: &str) -> (q: Self)
        ensures
            q.path@ == path@,
            q.args@.len() == 0,
            !q.include_unknown && !q.include_duplicates && !q.raw_values && !q.group_by_category,
            !q.no_composite && q.extract_embedded is None && q.extensions@.len() == 0,
            q.ignore_dirs@.len() == 0 && !q.recursive && !q.progress && q.progress_interval is None,
            q.progress_title is None && q.specific_tags@.len() == 0 && q.excluded_tags@.len() == 0,
            !q.decimal && q.escape_format is None && !q.force_print && q.group_names is None,
            !q.html_format && !q.hex && !q.long_format && !q.latin && q.short_format is None,
            !q.tab_format && !q.table_format && q.text_out is None && q.tag_out is None,
            q.tag_out_ext@.len() == 0 && q.list_item is None && q.file_order is None && !q.quiet,
            q.html_dump is None && !q.php_format && !q.plot_format && !q.args_format,
            q.common_args@.len() == 0 && q.echo@.len() == 0 && q.efile is None,
    {
        QueryBuilder {
            path: owned(path),
            args: Vec::new(),
            include_unknown: false,
            include_duplicates: false,
            raw_values: false,
            group_by_category: false,
            no_composite: false,
            extract_embedded: None,
            extensions: Vec::new(),
            ignore_dirs: Vec::new(),
            recursive: false,
            progress: false,
            progress_interval: None,
            progress_title: None,
            specific_tags: Vec::new(),
            excluded_tags: Vec::new(),
            decimal: false,
            escape_format: None,
            force_print: false,
            group_names: None,
            html_format: false,
            hex: false,
            long_format: false,
            latin: false,
            short_format: None,
            tab_format: false,
            table_format: false,
            text_out: None,
            tag_out: None,
            tag_out_ext: Vec::new(),
            list_item: None,
            file_order: None,
            quiet: false,
            html_dump: None,
            php_format: false,
            plot_format: false,
            args_format: false,
            common_args: Vec::new(),
            echo: Vec::new(),
            efile: None,
        }
    }

    /// Includes unknown tags (`-u`).
    pub fn include_unknown(self, yes: bool) -> (q: Self)
        ensures
            q == (QueryBuilder { include_unknown: yes, ..self }),
    {
        QueryBuilder { include_unknown: yes, ..self }
    }

    /// Includes duplicate tags (`-a`).
    pub fn include_duplicates(self, yes: bool) -> (q: Self)
        ensures
            q == (QueryBuilder { include_duplicates: yes, ..self }),
    {
        QueryBuilder { include_duplicates: yes, ..self }
    }

    /// Shows raw values instead of formatted ones (`-n`).
    pub fn raw_values(self, yes: bool) -> (q: Self)
        ensures
            q == (QueryBuilder { raw_values: yes, ..self }),
    {
        QueryBuilder { raw_values: yes, ..self }
    }

    /// Groups output by category (`-g1`).
    pub fn group_by_category(self, yes: bool) -> (q: Self)
        ensures
            q == (QueryBuilder { group_by_category: yes, ..self }),
    {
        QueryBuilder { group_by_category: yes, ..self }
    }

    /// Disables composite tags (`-e`).
    pub fn no_composite(self, yes: bool) -> (q: Self)
        ensures
            q == (QueryBuilder { no_composite: yes, ..self }),
    {
        QueryBuilder { no_composite: yes, ..self }
    }

    /// Recurses into subdirectories (`-r`).
    pub fn recursive(self, yes: bool) -> (q: Self)
        ensures
            q == (QueryBuilder { recursive: yes, ..self }),
    {
        QueryBuilder { recursive: yes, ..self }
    }

    /// Shows tag IDs in decimal (`-D`).
    pub fn decimal(self, yes: bool) -> (q: Self)
        ensures
            q == (QueryBuilder { decimal: yes, ..self }),
    {
        QueryBuilder { decimal: yes, ..self }
    }

    /// Prints tags even when absent (`-f`).
    pub fn force_print(self, yes: bool) -> (q: Self)
        ensures
            q == (QueryBuilder { force_print: yes, ..self }),
    {
        QueryBuilder { force_print: yes, ..self }
    }

    /// HTML output (`-h`).
    pub fn html_format(self, yes: bool) -> (q: Self)
        ensures
            q == (QueryBuilder { html_format: yes, ..self }),
    {
        QueryBuilder { html_format: yes, ..self }
    }

    /// Shows tag IDs in hexadecimal (`-H`).
    pub fn hex(self, yes: bool) -> (q: Self)
        ensures
            q == (QueryBuilder { hex: yes, ..self }),
    {
        QueryBuilder { hex: yes, ..self }
    }

    /// Long output (`-l`).
    pub fn long_format(self, yes: bool) -> (q: Self)
        ensures
            q == (QueryBuilder { long_format: yes, ..self }),
    {
        QueryBuilder { long_format: yes, ..self }
    }

    /// Latin-1 output (`-L`).
    pub fn latin(self, yes: bool) -> (q: Self)
        ensures
            q == (QueryBuilder { latin: yes, ..self }),
    {
        QueryBuilder { latin: yes, ..self }
    }

    /// Tab-separated output (`-t`).
    pub fn tab_format(self, yes: bool) -> (q: Self)
        ensures
            q == (QueryBuilder { tab_format: yes, ..self }),
    {
        QueryBuilder { tab_format: yes, ..self }
    }

    /// Table output (`-T`).
    pub fn table_format(self, yes: bool) -> (q: Self)
        ensures
            q == (QueryBuilder { table_format: yes, ..self }),
    {
        QueryBuilder { table_format: yes, ..self }
    }

    /// Quiet mode (`-q`).
    pub fn quiet(self, yes: bool) -> (q: Self)
        ensures
            q == (QueryBuilder { quiet: yes, ..self }),
    {
        QueryBuilder { quiet: yes, ..self }
    }

    /// PHP array output (`-php`).
    pub fn php_format(self, yes: bool) -> (q: Self)
        ensures
            q == (QueryBuilder { php_format: yes, ..self }),
    {
        QueryBuilder { php_format: yes, ..self }
    }

    /// SVG plot output (`-plot`).
    pub fn plot_format(self, yes: bool) -> (q: Self)
        ensures
            q == (QueryBuilder { plot_format: yes, ..self }),
    {
        QueryBuilder { plot_format: yes, ..self }
    }

    /// Output as ExifTool arguments (`-args`).
    pub fn args_format(self, yes: bool) -> (q: Self)
        ensures
            q == (QueryBuilder { args_format: yes, ..self }),
    {
        QueryBuilder { args_format: yes, ..self }
    }

    /// Extracts embedded files (`-ee`, `-eeN`).
    pub fn extract_embedded(self, level: Option<u8>) -> (q: Self)
        ensures
            q == (QueryBuilder { extract_embedded: level, ..self }),
    {
        QueryBuilder { extract_embedded: level, ..self }
    }

    /// Shows group names (`-G`, `-GN`).
    pub fn group_names(self, level: Option<u8>) -> (q: Self)
        ensures
            q == (QueryBuilder { group_names: level, ..self }),
    {
        QueryBuilder { group_names: level, ..self }
    }

    /// Short output (`-S` for level 0, `-sN` otherwise).
    pub fn short_format(self, level: Option<u8>) -> (q: Self)
        ensures
            q == (QueryBuilder { short_format: level, ..self }),
    {
        QueryBuilder { short_format: level, ..self }
    }

    /// Only files with this extension (`-ext`); may be given several times.
    pub fn extension(self, ext: &str) -> (q: Self)
        ensures
            views(q.extensions@) == views(self.extensions@).push(ext@),
            q == (QueryBuilder { extensions: q.extensions, ..self }),
    {
        let mut q = self;
        push_arg(&mut q.extensions, ext);
        q
    }

    /// Skips directories with this name (`-i`).
    pub fn ignore(self, dir: &str) -> (q: Self)
        ensures
            views(q.ignore_dirs@) == views(self.ignore_dirs@).push(dir@),
            q == (QueryBuilder { ignore_dirs: q.ignore_dirs, ..self }),
    {
        let mut q = self;
        push_arg(&mut q.ignore_dirs, dir);
        q
    }

    /// Shows progress (`-progress`): every `interval` files, or for every
    /// file when there is no interval, with an optional title.
    pub fn progress(self, interval: Option<u32>, title: Option<&str>) -> (q: Self)
        ensures
            q.progress,
            q.progress_interval == interval,
            opt_view(q.progress_title) == opt_str(title),
            q == (QueryBuilder { progress: true, progress_interval: interval, progress_title: q.progress_title, ..self }),
    {
        let t = match title {
            Some(s) => Some(owned(s)),
            None => None,
        };
        QueryBuilder { progress: true, progress_interval: interval, progress_title: t, ..self }
    }

    /// Requests a tag (`-TAG`).
    pub fn tag(self, tag: &str) -> (q: Self)
        ensures
            views(q.specific_tags@) == views(self.specific_tags@).push(tag@),
            q == (QueryBuilder { specific_tags: q.specific_tags, ..self }),
    {
        let mut q = self;
        push_arg(&mut q.specific_tags, tag);
        q
    }

    /// Requests several tags.
    pub fn tags(self, tags: &[&str]) -> (q: Self)
        ensures
            views(q.specific_tags@) == views(self.specific_tags@) + str_views(tags@),
            q == (QueryBuilder { specific_tags: q.specific_tags, ..self }),
    {
        let mut q = self;
        push_strs(&mut q.specific_tags, tags);
        q
    }

    /// Requests a tag by identifier.
    pub fn tag_id(self, tag: TagId) -> (q: Self)
        ensures
            views(q.specific_tags@) == views(self.specific_tags@).push(tag.0@),
            q == (QueryBuilder { specific_tags: q.specific_tags, ..self }),
    {
        self.tag(tag.name())
    }

    /// Excludes a tag (`--TAG`).
    pub fn exclude(self, tag: &str) -> (q: Self)
        ensures
            views(q.excluded_tags@) == views(self.excluded_tags@).push(tag@),
            q == (QueryBuilder { excluded_tags: q.excluded_tags, ..self }),
    {
        let mut q = self;
        push_arg(&mut q.excluded_tags, tag);
        q
    }

    /// Excludes several tags.
    pub fn excludes(self, tags: &[&str]) -> (q: Self)
        ensures
            views(q.excluded_tags@) == views(self.excluded_tags@) + str_views(tags@),
            q == (QueryBuilder { excluded_tags: q.excluded_tags, ..self }),
    {
        let mut q = self;
        push_strs(&mut q.excluded_tags, tags);
        q
    }

    /// Excludes a tag by identifier.
    pub fn exclude_id(self, tag: TagId) -> (q: Self)
        ensures
            views(q.excluded_tags@) == views(self.excluded_tags@).push(tag.0@),
            q == (QueryBuilder { excluded_tags: q.excluded_tags, ..self }),
    {
        self.exclude(tag.name())
    }

    /// Uses a character set (`-charset`).
    pub fn charset(self, value: &str) -> (q: Self)
        ensures
            views(q.args@) == views(self.args@) + seq!["-charset"@, value@],
            q == (QueryBuilder { args: q.args, ..self }),
    {
        let mut q = self;
        push_arg(&mut q.args, "-charset");
        push_arg(&mut q.args, value);
        assert(views(q.args@) =~= views(self.args@) + seq!["-charset"@, value@]);
        q
    }

    /// Uses a language (`-lang`).
    pub fn lang(self, value: &str) -> (q: Self)
        ensures
            views(q.args@) == views(self.args@) + seq!["-lang"@, value@],
            q == (QueryBuilder { args: q.args, ..self }),
    {
        let mut q = self;
        push_arg(&mut q.args, "-lang");
        push_arg(&mut q.args, value);
        assert(views(q.args@) =~= views(self.args@) + seq!["-lang"@, value@]);
        q
    }

    /// Sets the GPS coordinate format (`-c`).
    pub fn coord_format(self, value: &str) -> (q: Self)
        ensures
            views(q.args@) == views(self.args@) + seq!["-c"@, value@],
            q == (QueryBuilder { args: q.args, ..self }),
    {
        let mut q = self;
        push_arg(&mut q.args, "-c");
        push_arg(&mut q.args, value);
        assert(views(q.args@) =~= views(self.args@) + seq!["-c"@, value@]);
        q
    }

    /// Sets the date/time format (`-d`).
    pub fn date_format(self, value: &str) -> (q: Self)
        ensures
            views(q.args@) == views(self.args@) + seq!["-d"@, value@],
            q == (QueryBuilder { args: q.args, ..self }),
    {
        let mut q = self;
        push_arg(&mut q.args, "-d");
        push_arg(&mut q.args, value);
        assert(views(q.args@) =~= views(self.args@) + seq!["-d"@, value@]);
        q
    }

    /// Reads arguments from a file (`-@`).
    pub fn args_file(self, value: &str) -> (q: Self)
        ensures
            views(q.args@) == views(self.args@) + seq!["-@"@, value@],
            q == (QueryBuilder { args: q.args, ..self }),
    {
        let mut q = self;
        push_arg(&mut q.args, "-@");
        push_arg(&mut q.args, value);
        assert(views(q.args@) =~= views(self.args@) + seq!["-@"@, value@]);
        q
    }

    /// Sets the CSV delimiter (`-csvDelim`).
    pub fn csv_delimiter(self, value: &str) -> (q: Self)
        ensures
            views(q.args@) == views(self.args@) + seq!["-csvDelim"@, value@],
            q == (QueryBuilder { args: q.args, ..self }),
    {
        let mut q = self;
        push_arg(&mut q.args, "-csvDelim");
        push_arg(&mut q.args, value);
        assert(views(q.args@) =~= views(self.args@) + seq!["-csvDelim"@, value@]);
        q
    }

    /// Sets the source file pattern (`-srcfile`).
    pub fn source_file(self, value: &str) -> (q: Self)
        ensures
            views(q.args@) == views(self.args@) + seq!["-srcfile"@, value@],
            q == (QueryBuilder { args: q.args, ..self }),
    {
        let mut q = self;
        push_arg(&mut q.args, "-srcfile");
        push_arg(&mut q.args, value);
        assert(views(q.args@) =~= views(self.args@) + seq!["-srcfile"@, value@]);
        q
    }

    /// Loads a plug-in module (`-use`).
    pub fn use_module(self, value: &str) -> (q: Self)
        ensures
            views(q.args@) == views(self.args@) + seq!["-use"@, value@],
            q == (QueryBuilder { args: q.args, ..self }),
    {
        let mut q = self;
        push_arg(&mut q.args, "-use");
        push_arg(&mut q.args, value);
        assert(views(q.args@) =~= views(self.args@) + seq!["-use"@, value@]);
        q
    }

    /// Prints with a format (`-p`).
    pub fn print_format(self, value: &str) -> (q: Self)
        ensures
            views(q.args@) == views(self.args@) + seq!["-p"@, value@],
            q == (QueryBuilder { args: q.args, ..self }),
    {
        let mut q = self;
        push_arg(&mut q.args, "-p");
        push_arg(&mut q.args, value);
        assert(views(q.args@) =~= views(self.args@) + seq!["-p"@, value@]);
        q
    }

    /// Sets the list separator (`-sep`).
    pub fn separator(self, value: &str) -> (q: Self)
        ensures
            views(q.args@) == views(self.args@) + seq!["-sep"@, value@],
            q == (QueryBuilder { args: q.args, ..self }),
    {
        let mut q = self;
        push_arg(&mut q.args, "-sep");
        push_arg(&mut q.args, value);
        assert(views(q.args@) =~= views(self.args@) + seq!["-sep"@, value@]);
        q
    }

    /// Sets a password for protected files (`-password`).
    pub fn password(self, value: &str) -> (q: Self)
        ensures
            views(q.args@) == views(self.args@) + seq!["-password"@, value@],
            q == (QueryBuilder { args: q.args, ..self }),
    {
        let mut q = self;
        push_arg(&mut q.args, "-password");
        push_arg(&mut q.args, value);
        assert(views(q.args@) =~= views(self.args@) + seq!["-password"@, value@]);
        q
    }

    /// Recurses including hidden directories (`-r.`).
    pub fn recursive_hidden(self) -> (q: Self)
        ensures
            views(q.args@) == views(self.args@).push("-r."@),
            q == (QueryBuilder { args: q.args, ..self }),
    {
        let mut q = self;
        push_arg(&mut q.args, "-r.");
        q
    }

    /// Extracts unknown binary tags (`-U`).
    pub fn unknown_binary(self) -> (q: Self)
        ensures
            views(q.args@) == views(self.args@).push("-U"@),
            q == (QueryBuilder { args: q.args, ..self }),
    {
        let mut q = self;
        push_arg(&mut q.args, "-U");
        q
    }

    /// Extracts binary data (`-b`).
    pub fn binary(self) -> (q: Self)
        ensures
            views(q.args@) == views(self.args@).push("-b"@),
            q == (QueryBuilder { args: q.args, ..self }),
    {
        let mut q = self;
        push_arg(&mut q.args, "-b");
        q
    }

    /// Very short output (`-S`).
    pub fn very_short(self) -> (q: Self)
        ensures
            views(q.args@) == views(self.args@).push("-S"@),
            q == (QueryBuilder { args: q.args, ..self }),
    {
        let mut q = self;
        push_arg(&mut q.args, "-S");
        q
    }

    /// XML output (`-X`).
    pub fn xml_format(self) -> (q: Self)
        ensures
            views(q.args@) == views(self.args@).push("-X"@),
            q == (QueryBuilder { args: q.args, ..self }),
    {
        let mut q = self;
        push_arg(&mut q.args, "-X");
        q
    }

    /// Ignores minor errors (`-m`).
    pub fn ignore_minor_errors(self) -> (q: Self)
        ensures
            views(q.args@) == views(self.args@).push("-m"@),
            q == (QueryBuilder { args: q.args, ..self }),
    {
        let mut q = self;
        push_arg(&mut q.args, "-m");
        q
    }

    /// Adds a raw argument.
    pub fn arg(self, arg: &str) -> (q: Self)
        ensures
            views(q.args@) == views(self.args@).push(arg@),
            q == (QueryBuilder { args: q.args, ..self }),
    {
        let mut q = self;
        push_arg(&mut q.args, arg);
        q
    }

    /// Reads an alternate file, `-fileNUM`.
    pub fn alternate_file(self, num: u8, path: &str) -> (q: Self)
        ensures
            views(q.args@) == views(self.args@) + seq!["-file"@ + nat_dec(num as nat), path@],
            q == (QueryBuilder { args: q.args, ..self }),
    {
        let mut q = self;
        let mut opt = owned("-file");
        push_dec(&mut opt, num as u64);
        push_owned(&mut q.args, opt);
        push_arg(&mut q.args, path);
        assert(views(q.args@) =~= views(self.args@) + seq!["-file"@ + nat_dec(num as nat), path@]);
        q
    }

    /// Shows raw values (same as `raw_values(true)`).
    pub fn no_print_conv(self) -> (q: Self)
        ensures
            q == (QueryBuilder { raw_values: true, ..self }),
    {
        QueryBuilder { raw_values: true, ..self }
    }

    /// Allows duplicate tags (same as `include_duplicates(true)`).
    pub fn allow_duplicates(self) -> (q: Self)
        ensures
            q == (QueryBuilder { include_duplicates: true, ..self }),
    {
        QueryBuilder { include_duplicates: true, ..self }
    }

    /// Includes unknown tags (same as `include_unknown(true)`).
    pub fn unknown(self) -> (q: Self)
        ensures
            q == (QueryBuilder { include_unknown: true, ..self }),
    {
        QueryBuilder { include_unknown: true, ..self }
    }

    /// Organizes output by group headings: `-g`, or `-gN`.
    pub fn group_headings(self, num: Option<u8>) -> (q: Self)
        ensures
            views(q.args@) == views(self.args@).push(heading_arg(num)),
            q == (QueryBuilder { args: q.args, ..self }),
    {
        let mut q = self;
        let a = heading_string(num);
        push_owned(&mut q.args, a);
        q
    }

    /// Short output: `-sN` for a level above 1, else `-s`.
    pub fn short(self, level: Option<u8>) -> (q: Self)
        ensures
            views(q.args@) == views(self.args@).push(short_arg(level)),
            q == (QueryBuilder { args: q.args, ..self }),
    {
        let mut q = self;
        let a = short_string(level);
        push_owned(&mut q.args, a);
        q
    }

    /// Sorts output (`-sort`) when asked.
    pub fn sort(self, yes: bool) -> (q: Self)
        ensures
            views(q.args@) == views(self.args@) + flag(yes, "-sort"@),
            q == (QueryBuilder { args: q.args, ..self }),
    {
        let mut q = self;
        push_flag(&mut q.args, yes, "-sort");
        q
    }

    /// Fast scan: `-fast` for level 1, `-fastN` above, nothing otherwise.
    pub fn fast(self, level: Option<u8>) -> (q: Self)
        ensures
            views(q.args@) == views(self.args@) + fast_args(level),
            q == (QueryBuilder { args: q.args, ..self }),
    {
        let mut q = self;
        push_fast(&mut q.args, level);
        q
    }

    /// Scans for XMP in any file (`-scanForXMP`) when asked.
    pub fn scan_for_xmp(self, yes: bool) -> (q: Self)
        ensures
            views(q.args@) == views(self.args@) + flag(yes, "-scanForXMP"@),
            q == (QueryBuilder { args: q.args, ..self }),
    {
        let mut q = self;
        push_flag(&mut q.args, yes, "-scanForXMP");
        q
    }

    /// Sets an API option (`-api OPT=VALUE`, or `-api OPT`).
    pub fn api_option(self, opt: &str, value: Option<&str>) -> (q: Self)
        ensures
            views(q.args@) == views(self.args@) + seq!["-api"@, keyed(opt@, opt_str(value))],
            q == (QueryBuilder { args: q.args, ..self }),
    {
        let mut q = self;
        push_arg(&mut q.args, "-api");
        push_owned(&mut q.args, keyed_string(opt, value));
        assert(views(q.args@) =~= views(self.args@) + seq!["-api"@, keyed(opt@, opt_str(value))]);
        q
    }

    /// Sets a user parameter (`-userParam PARAM=VALUE`, or `-userParam PARAM`).
    pub fn user_param(self, param: &str, value: Option<&str>) -> (q: Self)
        ensures
            views(q.args@) == views(self.args@) + seq!["-userParam"@, keyed(param@, opt_str(value))],
            q == (QueryBuilder { args: q.args, ..self }),
    {
        let mut q = self;
        push_arg(&mut q.args, "-userParam");
        push_owned(&mut q.args, keyed_string(param, value));
        assert(views(q.args@) =~= views(self.args@) + seq!["-userParam"@, keyed(param@, opt_str(value))]);
        q
    }

    /// Sets the escape format.
    pub fn escape(self, format: EscapeFormat) -> (q: Self)
        ensures
            q == (QueryBuilder { escape_format: Some(format), ..self }),
    {
        QueryBuilder { escape_format: Some(format), ..self }
    }

    /// Writes output to files with this extension (`-w`).
    pub fn text_out(self, ext: &str) -> (q: Self)
        ensures
            opt_view(q.text_out) == Some(ext@),
            q == (QueryBuilder { text_out: q.text_out, ..self }),
    {
        QueryBuilder { text_out: Some(owned(ext)), ..self }
    }

    /// Writes tags to files with this format (`-W`).
    pub fn tag_out(self, format: &str) -> (q: Self)
        ensures
            opt_view(q.tag_out) == Some(format@),
            q == (QueryBuilder { tag_out: q.tag_out, ..self }),
    {
        QueryBuilder { tag_out: Some(owned(format)), ..self }
    }

    /// Only these file types for `-W` (`-Wext`).
    pub fn tag_out_ext(self, ext: &str) -> (q: Self)
        ensures
            views(q.tag_out_ext@) == views(self.tag_out_ext@).push(ext@),
            q == (QueryBuilder { tag_out_ext: q.tag_out_ext, ..self }),
    {
        let mut q = self;
        push_arg(&mut q.tag_out_ext, ext);
        q
    }

    /// Extracts one item of list values (`-listItem`).
    pub fn list_item(self, index: u32) -> (q: Self)
        ensures
            q == (QueryBuilder { list_item: Some(index), ..self }),
    {
        QueryBuilder { list_item: Some(index), ..self }
    }

    /// Processes files in the order of a tag (`-fileOrder`).
    pub fn file_order(self, tag: &str, descending: bool) -> (q: Self)
        ensures
            q.file_order matches Some((t, d)) && t@ == tag@ && d == descending,
            q == (QueryBuilder { file_order: q.file_order, ..self }),
    {
        QueryBuilder { file_order: Some((owned(tag), descending)), ..self }
    }

    /// Dumps binary structure as HTML (`-htmlDumpOFFSET`).
    pub fn html_dump(self, offset: Option<u32>) -> (q: Self)
        ensures
            q == (QueryBuilder { html_dump: offset, ..self }),
    {
        QueryBuilder { html_dump: offset, ..self }
    }

    /// Adds arguments common to all commands (`-common_args`).
    pub fn common_args(self, args: &[&str]) -> (q: Self)
        ensures
            views(q.common_args@) == views(self.common_args@) + str_views(args@),
            q == (QueryBuilder { common_args: q.common_args, ..self }),
    {
        let mut q = self;
        push_strs(&mut q.common_args, args);
        q
    }

    /// Echoes text, to stderr when the target is `stderr` (`-echo`, `-echo2`).
    pub fn echo(self, text: &str, target: Option<&str>) -> (q: Self)
        ensures
            q.echo@.len() == self.echo@.len() + 1,
            q.echo@.drop_last() == self.echo@,
            q.echo@.last().0@ == text@,
            opt_view(q.echo@.last().1) == opt_str(target),
            q == (QueryBuilder { echo: q.echo, ..self }),
    {
        let mut q = self;
        let t = match target {
            Some(s) => Some(owned(s)),
            None => None,
        };
        let ghost before = q.echo@;
        q.echo.push((owned(text), t));
        assert(q.echo@.drop_last() =~= before);
        q
    }

    /// Saves the names of files with errors (`-efile`).
    pub fn efile(self, filename: &str) -> (q: Self)
        ensures
            opt_view(q.efile) == Some(filename@),
            q == (QueryBuilder { efile: q.efile, ..self }),
    {
        QueryBuilder { efile: Some(owned(filename)), ..self }
    }

    #[verifier::rlimit(60)]
    fn push_output_options(&self, args: &mut Vec<String>)
        ensures
            views(final(args)@) == views(old(args)@)
    + flag(self.group_by_category, "-g1"@)
    + flag(self.include_unknown, "-u"@)
    + flag(self.include_duplicates, "-a"@)
    + flag(self.raw_values, "-n"@)
    + flag(self.decimal, "-D"@)
    + opt_one(match self.escape_format { Some(f) => Some(escape_flag(f)), None => None })
    + flag(self.force_print, "-f"@)
    + opt_one(match self.group_names { Some(l) => Some(numbered("-G"@, l as nat, 1)), None => None })
    + flag(self.html_format, "-h"@)
    + flag(self.hex, "-H"@)
    + flag(self.long_format, "-l"@)
    + flag(self.latin, "-L"@)
    + opt_one(match self.short_format { Some(l) => Some(if l == 0 { "-S"@ } else { "-s"@ + nat_dec(l as nat) }), None => None })
    + flag(self.tab_format, "-t"@)
    + flag(self.table_format, "-T"@),
    {
        reveal(opt_one);
        reveal(opt_pair);
        push_flag(args, self.group_by_category, "-g1");
        push_flag(args, self.include_unknown, "-u");
        push_flag(args, self.include_duplicates, "-a");
        push_flag(args, self.raw_values, "-n");
        push_flag(args, self.decimal, "-D");
        let ghost v0 = views(args@);
        match self.escape_format {
            Some(f) => {
                let s = match f {
                    EscapeFormat::Html => "-E",
                    EscapeFormat::Xml => "-ex",
                    EscapeFormat::C => "-ec",
                };
                push_arg(args, s);
            },
            None => {},
        }
        assert(views(args@) =~= v0 + opt_one(match self.escape_format { Some(f) => Some(escape_flag(f)), None => None }));
        push_flag(args, self.force_print, "-f");
        let ghost v1 = views(args@);
        match self.group_names {
            Some(l) => push_numbered(args, "-G", l as u64, 1),
            None => {},
        }
        assert(views(args@) =~= v1 + opt_one(match self.group_names { Some(l) => Some(numbered("-G"@, l as nat, 1)), None => None }));
        push_flag(args, self.html_format, "-h");
        push_flag(args, self.hex, "-H");
        push_flag(args, self.long_format, "-l");
        push_flag(args, self.latin, "-L");
        let ghost v2 = views(args@);
        match self.short_format {
            Some(l) => {
                if l == 0 {
                    push_arg(args, "-S");
                } else {
                    let mut s = owned("-s");
                    push_dec(&mut s, l as u64);
                    push_owned(args, s);
                }
            },
            None => {},
        }
        assert(views(args@) =~= v2 + opt_one(match self.short_format { Some(l) => Some(if l == 0 { "-S"@ } else { "-s"@ + nat_dec(l as nat) }), None => None }));
        push_flag(args, self.tab_format, "-t");
        push_flag(args, self.table_format, "-T");
    }

    fn push_output_files(&self, args: &mut Vec<String>)
        ensures
            views(final(args)@) == views(old(args)@)
    + opt_pair("-w"@, opt_view(self.text_out))
    + opt_pair("-W"@, opt_view(self.tag_out))
    + pairs("-Wext"@, views(self.tag_out_ext@))
    + opt_pair("-listItem"@, match self.list_item { Some(i) => Some(nat_dec(i as nat)), None => None })
    + opt_pair("-fileOrder"@, match self.file_order { Some((tag, desc)) => Some((if desc { "-"@ } else { ""@ }) + tag@), None => None })
    + flag(self.quiet, "-q"@)
    + opt_one(match self.html_dump { Some(o) => Some("-htmlDump"@ + nat_dec(o as nat)), None => None })
    + flag(self.php_format, "-php"@)
    + flag(self.plot_format, "-plot"@)
    + flag(self.args_format, "-args"@),
    {
        reveal(opt_one);
        reveal(opt_pair);
        push_opt_pair(args, "-w", &self.text_out);
        push_opt_pair(args, "-W", &self.tag_out);
        push_pairs(args, "-Wext", &self.tag_out_ext);
        let ghost v3 = views(args@);
        match self.list_item {
            Some(i) => {
                push_arg(args, "-listItem");
                let s = crate::text::u64_dec(i as u64);
                push_owned(args, s);
            },
            None => {},
        }
        assert(views(args@) =~= v3 + opt_pair("-listItem"@, match self.list_item { Some(i) => Some(nat_dec(i as nat)), None => None }));
        let ghost v4 = views(args@);
        match &self.file_order {
            Some((tag, desc)) => {
                push_arg(args, "-fileOrder");
                let s = if *desc {
                    concat2("-", tag.as_str())
                } else {
                    concat2("", tag.as_str())
                };
                push_owned(args, s);
            },
            None => {},
        }
        assert(views(args@) =~= v4 + opt_pair("-fileOrder"@, match self.file_order { Some((tag, desc)) => Some((if desc { "-"@ } else { ""@ }) + tag@), None => None }));
        push_flag(args, self.quiet, "-q");
        let ghost v5 = views(args@);
        match self.html_dump {
            Some(o) => {
                let mut s = owned("-htmlDump");
                push_dec(&mut s, o as u64);
                push_owned(args, s);
            },
            None => {},
        }
        assert(views(args@) =~= v5 + opt_one(match self.html_dump { Some(o) => Some("-htmlDump"@ + nat_dec(o as nat)), None => None }));
        push_flag(args, self.php_format, "-php");
        push_flag(args, self.plot_format, "-plot");
        push_flag(args, self.args_format, "-args");
    }

    fn push_selection(&self, args: &mut Vec<String>)
        ensures
            views(final(args)@) == views(old(args)@)
    + pairs("-common_args"@, views(self.common_args@))
    + echo_args(self.echo@)
    + opt_pair("-efile"@, opt_view(self.efile))
    + flag(self.no_composite, "-e"@)
    + opt_one(match self.extract_embedded { Some(l) => Some(numbered("-ee"@, l as nat, 1)), None => None })
    + pairs("-ext"@, views(self.extensions@))
    + pairs("-i"@, views(self.ignore_dirs@))
    + flag(self.recursive, "-r"@)
    + opt_one(if self.progress { Some(progress_arg(self.progress_interval, opt_view(self.progress_title))) } else { None }),
    {
        reveal(opt_one);
        reveal(opt_pair);
        push_pairs(args, "-common_args", &self.common_args);
        push_echo(args, &self.echo);
        push_opt_pair(args, "-efile", &self.efile);
        push_flag(args, self.no_composite, "-e");
        let ghost v6 = views(args@);
        match self.extract_embedded {
            Some(l) => push_numbered(args, "-ee", l as u64, 1),
            None => {},
        }
        assert(views(args@) =~= v6 + opt_one(match self.extract_embedded { Some(l) => Some(numbered("-ee"@, l as nat, 1)), None => None }));
        push_pairs(args, "-ext", &self.extensions);
        push_pairs(args, "-i", &self.ignore_dirs);
        push_flag(args, self.recursive, "-r");
        let ghost v7 = views(args@);
        if self.progress {
            let a = progress_string(self.progress_interval, &self.progress_title);
            push_owned(args, a);
        }
        assert(views(args@) =~= v7 + opt_one(if self.progress { Some(progress_arg(self.progress_interval, opt_view(self.progress_title))) } else { None }));
    }

    /// The argument list of this query; with `json_output`, ExifTool is
    /// asked for JSON.
    #[verifier::rlimit(60)]
    pub fn build_args(&self, json_output: bool) -> (r: Vec<String>)
        ensures
            views(r@) == query_args(*self, json_output),
    {
        let mut args: Vec<String> = Vec::new();
        push_flag(&mut args, json_output, "-json");
        assert(views(args@) =~= flag(json_output, "-json"@));
        self.push_output_options(&mut args);
        self.push_output_files(&mut args);
        self.push_selection(&mut args);
        push_all(&mut args, &self.args);
        push_prefixed(&mut args, "-", &self.specific_tags);
        push_prefixed(&mut args, "--", &self.excluded_tags);
        push_arg(&mut args, self.path.as_str());
        args
    }
}

/// `[x]` when there is an `x`, else nothing.
#[verifier::opaque]
pub open spec fn opt_one(o: Option<Seq<char>>) -> Seq<Seq<char>> {
    match o {
        Some(x) => seq![x],
        None => Seq::<Seq<char>>::empty(),
    }
}

/// The `-g` option for group headings.
pub open spec fn heading_arg(num: Option<u8>) -> Seq<char> {
    match num {
        Some(n) => "-g"@ + nat_dec(n as nat),
        None => "-g"@,
    }
}

fn heading_string(num: Option<u8>) -> (s: String)
    ensures
        s@ == heading_arg(num),
{
    match num {
        Some(n) => {
            let mut s = owned("-g");
            push_dec(&mut s, n as u64);
            s
        },
        None => owned("-g"),
    }
}

/// The `-s` option for short output.
pub open spec fn short_arg(level: Option<u8>) -> Seq<char> {
    match level {
        Some(n) => if n > 1 {
            "-s"@ + nat_dec(n as nat)
        } else {
            "-s"@
        },
        None => "-s"@,
    }
}

fn short_string(level: Option<u8>) -> (s: String)
    ensures
        s@ == short_arg(level),
{
    match level {
        Some(n) => {
            if n > 1 {
                let mut s = owned("-s");
                push_dec(&mut s, n as u64);
                s
            } else {
                owned("-s")
            }
        },
        None => owned("-s"),
    }
}

/// The `-progress` option: `-progress`, the interval when there is one,
/// and `:TITLE` when there is a title.
pub open spec fn progress_arg(n: Option<u32>, title: Option<Seq<char>>) -> Seq<char> {
    let base = match n {
        Some(k) => "-progress"@ + nat_dec(k as nat),
        None => "-progress"@,
    };
    match title {
        Some(t) => base + ":"@ + t,
        None => base,
    }
}

fn progress_string(n: Option<u32>, title: &Option<String>) -> (s: String)
    ensures
        s@ == progress_arg(n, opt_view(*title)),
{
    let mut s = owned("-progress");
    match n {
        Some(k) => push_dec(&mut s, k as u64),
        None => {},
    }
    match title {
        Some(t) => {
            let ghost before = s@;
            s.append(":");
            s.append(t.as_str());
            assert(s@ == before + ":"@ + t@);
        },
        None => {},
    }
    s
}




/// The `-fast` option for a level: `-fast` for 1, `-fastN` above 1,
/// nothing for 0 or none.
pub open spec fn fast_args(level: Option<u8>) -> Seq<Seq<char>> {
    match level {
        Some(l) => if l == 1 {
            seq!["-fast"@]
        } else if l > 1 {
            seq!["-fast"@ + nat_dec(l as nat)]
        } else {
            Seq::<Seq<char>>::empty()
        },
        None => Seq::<Seq<char>>::empty(),
    }
}

fn push_fast(args: &mut Vec<String>, level: Option<u8>)
    ensures
        views(final(args)@) == views(old(args)@) + fast_args(level),
{
    let ghost before = views(args@);
    match level {
        Some(l) => {
            if l == 1 {
                push_arg(args, "-fast");
            } else if l > 1 {
                let mut s = owned("-fast");
                push_dec(&mut s, l as u64);
                push_owned(args, s);
            }
        },
        None => {},
    }
    assert(views(args@) =~= before + fast_args(level));
}


/// A query of several files at once, answered as one JSON array.
pub struct BatchQueryBuilder {
    pub paths: Vec<String>,
    pub args: Vec<String>,
    pub include_unknown: bool,
    pub include_duplicates: bool,
    pub raw_values: bool,
    pub group_by_category: bool,
    pub specific_tags: Vec<String>,
}

/// The arguments of a batch query: `-json`, the chosen flags, the custom
/// arguments, `-TAG` for each requested tag, then every path.
pub open spec fn batch_query_args(q: BatchQueryBuilder) -> Seq<Seq<char>> {
    seq!["-json"@]
    + flag(q.group_by_category, "-g1"@)
    + flag(q.include_unknown, "-u"@)
    + flag(q.include_duplicates, "-a"@)
    + flag(q.raw_values, "-n"@)
    + views(q.args@)
    + prefixed("-"@, views(q.specific_tags@))
    + views(q.paths@)
}

/// A batch query asks for JSON first, then sends each requested tag as
/// `-TAG`, in the order requested, right before the files, and names the
/// files last, in order.
pub proof fn law_batch_query_tags_and_paths(q: BatchQueryBuilder)
    ensures
        batch_query_args(q).len() >= 1 + q.specific_tags@.len() + q.paths@.len(),
        batch_query_args(q)[0] == "-json"@,
        forall|i: int| 0 <= i < q.specific_tags@.len() ==> #[trigger] batch_query_args(q)[batch_query_args(q).len()
            - q.paths@.len() - q.specific_tags@.len() + i] == "-"@ + q.specific_tags@[i]@,
        forall|j: int| 0 <= j < q.paths@.len() ==> #[trigger] batch_query_args(q)[batch_query_args(q).len()
            - q.paths@.len() + j] == q.paths@[j]@,
{
    let r = batch_query_args(q);
    let x = seq!["-json"@] + flag(q.group_by_category, "-g1"@) + flag(q.include_unknown, "-u"@)
        + flag(q.include_duplicates, "-a"@) + flag(q.raw_values, "-n"@) + views(q.args@);
    let pre = prefixed("-"@, views(q.specific_tags@));
    let ps = views(q.paths@);
    assert(r == x + pre + ps);
    assert(x[0] == "-json"@);
    let t = q.specific_tags@.len();
    let pl = q.paths@.len();
    assert(pre.len() == t);
    assert(ps.len() == pl);
    assert forall|i: int| 0 <= i < t implies #[trigger] r[r.len() - pl - t + i] == "-"@ + q.specific_tags@[i]@ by {
        assert(r[r.len() - pl - t + i] == (x + pre)[x.len() + i]);
        assert(pre[i] == "-"@ + views(q.specific_tags@)[i]);
    }
    assert forall|j: int| 0 <= j < pl implies #[trigger] r[r.len() - pl + j] == q.paths@[j]@ by {
        assert(r[r.len() - pl + j] == ps[j]);
    }
}

impl BatchQueryBuilder {
    /// A query of the given files with no options set.
    pub fn new(paths: Vec<String>) -> (q: Self)
        ensures
            q.paths == paths,
            q.args@.len() == 0 && q.specific_tags@.len() == 0,
            !q.include_unknown && !q.include_duplicates && !q.raw_values && !q.group_by_category,
    {
        BatchQueryBuilder {
            paths,
            args: Vec::new(),
            include_unknown: false,
            include_duplicates: false,
            raw_values: false,
            group_by_category: false,
            specific_tags: Vec::new(),
        }
    }

    /// Sets the `include_unknown` option.
    pub fn include_unknown(self, yes: bool) -> (q: Self)
        ensures
            q == (BatchQueryBuilder { include_unknown: yes, ..self }),
    {
        BatchQueryBuilder { include_unknown: yes, ..self }
    }

    /// Sets the `include_duplicates` option.
    pub fn include_duplicates(self, yes: bool) -> (q: Self)
        ensures
            q == (BatchQueryBuilder { include_duplicates: yes, ..self }),
    {
        BatchQueryBuilder { include_duplicates: yes, ..self }
    }

    /// Sets the `raw_values` option.
    pub fn raw_values(self, yes: bool) -> (q: Self)
        ensures
            q == (BatchQueryBuilder { raw_values: yes, ..self }),
    {
        BatchQueryBuilder { raw_values: yes, ..self }
    }

    /// Sets the `group_by_category` option.
    pub fn group_by_category(self, yes: bool) -> (q: Self)
        ensures
            q == (BatchQueryBuilder { group_by_category: yes, ..self }),
    {
        BatchQueryBuilder { group_by_category: yes, ..self }
    }

    /// Requests a tag (`-TAG`).
    pub fn tag(self, tag: &str) -> (q: Self)
        ensures
            views(q.specific_tags@) == views(self.specific_tags@).push(tag@),
            q == (BatchQueryBuilder { specific_tags: q.specific_tags, ..self }),
    {
        let mut q = self;
        push_arg(&mut q.specific_tags, tag);
        q
    }

    /// Requests several tags.
    pub fn tags(self, tags: &[&str]) -> (q: Self)
        ensures
            views(q.specific_tags@) == views(self.specific_tags@) + str_views(tags@),
            q == (BatchQueryBuilder { specific_tags: q.specific_tags, ..self }),
    {
        let mut q = self;
        push_strs(&mut q.specific_tags, tags);
        q
    }

    /// Sets the GPS coordinate format (`-c`).
    pub fn coord_format(self, value: &str) -> (q: Self)
        ensures
            views(q.args@) == views(self.args@) + seq!["-c"@, value@],
            q == (BatchQueryBuilder { args: q.args, ..self }),
    {
        let mut q = self;
        push_arg(&mut q.args, "-c");
        push_arg(&mut q.args, value);
        assert(views(q.args@) =~= views(self.args@) + seq!["-c"@, value@]);
        q
    }

    /// Sets the date/time format (`-d`).
    pub fn date_format(self, value: &str) -> (q: Self)
        ensures
            views(q.args@) == views(self.args@) + seq!["-d"@, value@],
            q == (BatchQueryBuilder { args: q.args, ..self }),
    {
        let mut q = self;
        push_arg(&mut q.args, "-d");
        push_arg(&mut q.args, value);
        assert(views(q.args@) =~= views(self.args@) + seq!["-d"@, value@]);
        q
    }

    /// Sets a password (`-password`).
    pub fn password(self, value: &str) -> (q: Self)
        ensures
            views(q.args@) == views(self.args@) + seq!["-password"@, value@],
            q == (BatchQueryBuilder { args: q.args, ..self }),
    {
        let mut q = self;
        push_arg(&mut q.args, "-password");
        push_arg(&mut q.args, value);
        assert(views(q.args@) =~= views(self.args@) + seq!["-password"@, value@]);
        q
    }

    /// Prints with a format (`-p`).
    pub fn print_format(self, value: &str) -> (q: Self)
        ensures
            views(q.args@) == views(self.args@) + seq!["-p"@, value@],
            q == (BatchQueryBuilder { args: q.args, ..self }),
    {
        let mut q = self;
        push_arg(&mut q.args, "-p");
        push_arg(&mut q.args, value);
        assert(views(q.args@) =~= views(self.args@) + seq!["-p"@, value@]);
        q
    }

    /// Sets the list separator (`-sep`).
    pub fn separator(self, value: &str) -> (q: Self)
        ensures
            views(q.args@) == views(self.args@) + seq!["-sep"@, value@],
            q == (BatchQueryBuilder { args: q.args, ..self }),
    {
        let mut q = self;
        push_arg(&mut q.args, "-sep");
        push_arg(&mut q.args, value);
        assert(views(q.args@) =~= views(self.args@) + seq!["-sep"@, value@]);
        q
    }

    /// Fast scan: `-fast` for level 1, `-fastN` above, nothing otherwise.
    pub fn fast(self, level: Option<u8>) -> (q: Self)
        ensures
            views(q.args@) == views(self.args@) + fast_args(level),
            q == (BatchQueryBuilder { args: q.args, ..self }),
    {
        let mut q = self;
        push_fast(&mut q.args, level);
        q
    }

    /// Scans for XMP in any file (`-scanForXMP`) when asked.
    pub fn scan_for_xmp(self, yes: bool) -> (q: Self)
        ensures
            views(q.args@) == views(self.args@) + flag(yes, "-scanForXMP"@),
            q == (BatchQueryBuilder { args: q.args, ..self }),
    {
        let mut q = self;
        push_flag(&mut q.args, yes, "-scanForXMP");
        q
    }

    /// Sorts output (`-sort`) when asked.
    pub fn sort(self, yes: bool) -> (q: Self)
        ensures
            views(q.args@) == views(self.args@) + flag(yes, "-sort"@),
            q == (BatchQueryBuilder { args: q.args, ..self }),
    {
        let mut q = self;
        push_flag(&mut q.args, yes, "-sort");
        q
    }

    /// Sets an API option (`-api OPT=VALUE`, or `-api OPT`).
    pub fn api_option(self, opt: &str, value: Option<&str>) -> (q: Self)
        ensures
            views(q.args@) == views(self.args@) + seq!["-api"@, keyed(opt@, opt_str(value))],
            q == (BatchQueryBuilder { args: q.args, ..self }),
    {
        let mut q = self;
        push_arg(&mut q.args, "-api");
        push_owned(&mut q.args, keyed_string(opt, value));
        assert(views(q.args@) =~= views(self.args@) + seq!["-api"@, keyed(opt@, opt_str(value))]);
        q
    }

    /// Sets a user parameter (`-userParam PARAM=VALUE`, or `-userParam PARAM`).
    pub fn user_param(self, param: &str, value: Option<&str>) -> (q: Self)
        ensures
            views(q.args@) == views(self.args@) + seq!["-userParam"@, keyed(param@, opt_str(value))],
            q == (BatchQueryBuilder { args: q.args, ..self }),
    {
        let mut q = self;
        push_arg(&mut q.args, "-userParam");
        push_owned(&mut q.args, keyed_string(param, value));
        assert(views(q.args@) =~= views(self.args@) + seq!["-userParam"@, keyed(param@, opt_str(value))]);
        q
    }

    /// The argument list of this batch query.
    pub fn build_args(&self) -> (r: Vec<String>)
        ensures
            views(r@) == batch_query_args(*self),
    {
        let mut args: Vec<String> = Vec::new();
        push_arg(&mut args, "-json");
        assert(views(args@) =~= seq!["-json"@]);
        push_flag(&mut args, self.group_by_category, "-g1");
        push_flag(&mut args, self.include_unknown, "-u");
        push_flag(&mut args, self.include_duplicates, "-a");
        push_flag(&mut args, self.raw_values, "-n");
        push_all(&mut args, &self.args);
        push_prefixed(&mut args, "-", &self.specific_tags);
        push_all(&mut args, &self.paths);
        args
    }
}

} // verus!
