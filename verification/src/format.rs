//! Output formats and read options.

use vstd::prelude::*;
use crate::args::{
    flag, opt_pair, opt_view, pairs, prefixed, push_arg, push_flag, push_opt_pair, push_owned,
    push_pairs, push_prefixed,
};
use crate::query::opt_one;
use crate::text::{nat_dec, owned, push_dec, views};

verus! {

/// The format ExifTool prints metadata in.
#[derive(Debug, Clone, Copy, PartialEq, Eq, Structural)]
pub enum OutputFormat {
    Json,
    Xml,
    Csv,
    Tsv,
    Html,
    Text,
    Struct,
}

/// The option that asks for a format.
pub open spec fn format_arg(f: OutputFormat) -> Seq<char> {
    match f {
        OutputFormat::Json => "-json"@,
        OutputFormat::Xml => "-X"@,
        OutputFormat::Csv => "-csv"@,
        OutputFormat::Tsv => "-t"@,
        OutputFormat::Html => "-h"@,
        OutputFormat::Text => "-s"@,
        OutputFormat::Struct => "-struct"@,
    }
}

impl OutputFormat {
    /// The option that asks for this format.
    pub fn arg(&self) -> (s: &'static str)
        ensures
            s@ == format_arg(*self),
    {
        match self {
            OutputFormat::Json => "-json",
            OutputFormat::Xml => "-X",
            OutputFormat::Csv => "-csv",
            OutputFormat::Tsv => "-t",
            OutputFormat::Html => "-h",
            OutputFormat::Text => "-s",
            OutputFormat::Struct => "-struct",
        }
    }
}

impl Default for OutputFormat {
    fn default() -> (f: Self)
        ensures
            f == OutputFormat::Json,
    {
        OutputFormat::Json
    }
}

/// Options of a formatted read.
#[derive(Debug, Clone)]
pub struct ReadOptions {
    pub format: OutputFormat,
    pub exclude_tags: Vec<String>,
    pub specific_tags: Vec<String>,
    pub table_format: bool,
    pub hex_dump: bool,
    /// The verbosity, at most 5.
    pub verbose: Option<u8>,
    pub lang: Option<String>,
    pub charset: Option<String>,
    pub raw_values: bool,
    pub recursive: bool,
    pub extensions: Vec<String>,
    pub condition: Option<String>,
}

/// Whether read options are those of `ReadOptions::new`.
pub open spec fn is_default_read(o: ReadOptions) -> bool {
    &&& o.format == OutputFormat::Json
    &&& o.exclude_tags@.len() == 0
    &&& o.specific_tags@.len() == 0
    &&& !o.table_format
    &&& !o.hex_dump
    &&& o.verbose is None
    &&& o.lang is None
    &&& o.charset is None
    &&& !o.raw_values
    &&& !o.recursive
    &&& o.extensions@.len() == 0
    &&& o.condition is None
}

impl ReadOptions {
    /// JSON output and nothing else.
    pub fn new() -> (o: Self)
        ensures
            is_default_read(o),
    {
        ReadOptions {
            format: OutputFormat::Json,
            exclude_tags: Vec::new(),
            specific_tags: Vec::new(),
            table_format: false,
            hex_dump: false,
            verbose: None,
            lang: None,
            charset: None,
            raw_values: false,
            recursive: false,
            extensions: Vec::new(),
            condition: None,
        }
    }

    /// Sets the format.
    pub fn format(self, format: OutputFormat) -> (o: Self)
        ensures
            o == (ReadOptions { format, ..self }),
    {
        ReadOptions { format, ..self }
    }

    /// Leaves out a tag.
    pub fn exclude(self, tag: &str) -> (o: Self)
        ensures
            views(o.exclude_tags@) == views(self.exclude_tags@).push(tag@),
            o == (ReadOptions { exclude_tags: o.exclude_tags, ..self }),
    {
        let mut o = self;
        let ghost before = views(o.exclude_tags@);
        o.exclude_tags.push(owned(tag));
        assert(views(o.exclude_tags@) =~= before.push(tag@));
        o
    }

    /// Reads a tag (only the tags so named are read).
    pub fn tag(self, tag: &str) -> (o: Self)
        ensures
            views(o.specific_tags@) == views(self.specific_tags@).push(tag@),
            o == (ReadOptions { specific_tags: o.specific_tags, ..self }),
    {
        let mut o = self;
        let ghost before = views(o.specific_tags@);
        o.specific_tags.push(owned(tag));
        assert(views(o.specific_tags@) =~= before.push(tag@));
        o
    }

    /// Asks for table output.
    pub fn table(self, yes: bool) -> (o: Self)
        ensures
            o == (ReadOptions { table_format: yes, ..self }),
    {
        ReadOptions { table_format: yes, ..self }
    }

    /// Asks for hexadecimal values.
    pub fn hex(self, yes: bool) -> (o: Self)
        ensures
            o == (ReadOptions { hex_dump: yes, ..self }),
    {
        ReadOptions { hex_dump: yes, ..self }
    }

    /// Sets the verbosity, capped at 5.
    pub fn verbose(self, level: u8) -> (o: Self)
        ensures
            o == (ReadOptions { verbose: Some(if level < 5 { level } else { 5u8 }), ..self }),
    {
        let l: u8 = if level < 5 { level } else { 5 };
        ReadOptions { verbose: Some(l), ..self }
    }

    /// Sets the language of descriptions.
    pub fn lang(self, lang: &str) -> (o: Self)
        ensures
            o.lang matches Some(l) && l@ == lang@,
            o == (ReadOptions { lang: o.lang, ..self }),
    {
        ReadOptions { lang: Some(owned(lang)), ..self }
    }

    /// Sets the character set.
    pub fn charset(self, charset: &str) -> (o: Self)
        ensures
            o.charset matches Some(c) && c@ == charset@,
            o == (ReadOptions { charset: o.charset, ..self }),
    {
        ReadOptions { charset: Some(owned(charset)), ..self }
    }

    /// Asks for raw values.
    pub fn raw(self, yes: bool) -> (o: Self)
        ensures
            o == (ReadOptions { raw_values: yes, ..self }),
    {
        ReadOptions { raw_values: yes, ..self }
    }

    /// Reads directories recursively.
    pub fn recursive(self, yes: bool) -> (o: Self)
        ensures
            o == (ReadOptions { recursive: yes, ..self }),
    {
        ReadOptions { recursive: yes, ..self }
    }

    /// Only reads files with an extension (may be given more than once).
    pub fn extension(self, ext: &str) -> (o: Self)
        ensures
            views(o.extensions@) == views(self.extensions@).push(ext@),
            o == (ReadOptions { extensions: o.extensions, ..self }),
    {
        let mut o = self;
        let ghost before = views(o.extensions@);
        o.extensions.push(owned(ext));
        assert(views(o.extensions@) =~= before.push(ext@));
        o
    }

    /// Only reads files for which a condition holds.
    pub fn condition(self, expr: &str) -> (o: Self)
        ensures
            o.condition matches Some(c) && c@ == expr@,
            o == (ReadOptions { condition: o.condition, ..self }),
    {
        ReadOptions { condition: Some(owned(expr)), ..self }
    }

    /// The argument list that reads `paths` with these options.
    #[verifier::rlimit(40)]
    pub fn build_args(&self, paths: &[String]) -> (r: Vec<String>)
        ensures
            views(r@) == read_args(*self, views(paths@)),
    {
        let mut args: Vec<String> = Vec::new();
        push_arg(&mut args, self.format.arg());
        assert(views(args@) =~= seq![format_arg(self.format)]);
        push_flag(&mut args, self.table_format, "-T");
        push_flag(&mut args, self.hex_dump, "-H");
        let ghost v0 = views(args@);
        match self.verbose {
            Some(level) => {
                let mut a = owned("-v");
                push_dec(&mut a, level as u64);
                push_owned(&mut args, a);
            },
            None => {},
        }
        proof {
            reveal(opt_one);
        }
        assert(views(args@) =~= v0 + opt_one(verbose_arg(self.verbose)));
        push_opt_pair(&mut args, "-lang", &self.lang);
        push_opt_pair(&mut args, "-charset", &self.charset);
        push_flag(&mut args, self.raw_values, "-n");
        push_flag(&mut args, self.recursive, "-r");
        push_pairs(&mut args, "-ext", &self.extensions);
        push_opt_pair(&mut args, "-if", &self.condition);
        push_prefixed(&mut args, "--", &self.exclude_tags);
        push_prefixed(&mut args, "-", &self.specific_tags);
        let ghost v2 = views(args@);
        let mut k: usize = 0;
        while k < paths.len()
            invariant
                k <= paths@.len(),
                views(args@) == v2 + views(paths@).take(k as int),
            decreases paths@.len() - k,
        {
            push_arg(&mut args, paths[k].as_str());
            assert(views(paths@).take(k + 1) =~= views(paths@).take(k as int).push(paths@[k as int]@));
            k = k + 1;
        }
        assert(views(paths@).take(paths@.len() as int) =~= views(paths@));
        args
    }
}

impl Default for ReadOptions {
    fn default() -> (o: Self)
        ensures
            is_default_read(o),
    {
        ReadOptions::new()
    }
}

/// The verbosity option: `-vLEVEL`.
pub open spec fn verbose_arg(level: Option<u8>) -> Option<Seq<char>> {
    match level {
        Some(l) => Some("-v"@ + nat_dec(l as nat)),
        None => None,
    }
}

/// The argument list of a formatted read: the format, `-T`, `-H`, the
/// verbosity, `-lang` and `-charset` with their values, `-n`, `-r`, each
/// extension behind `-ext`, the condition behind `-if`, each excluded tag
/// as `--TAG`, each read tag as `-TAG`, and the files.
pub open spec fn read_args(o: ReadOptions, paths: Seq<Seq<char>>) -> Seq<Seq<char>> {
    seq![format_arg(o.format)] + flag(o.table_format, "-T"@) + flag(o.hex_dump, "-H"@) + opt_one(
        verbose_arg(o.verbose),
    ) + opt_pair("-lang"@, opt_view(o.lang)) + opt_pair("-charset"@, opt_view(o.charset)) + flag(
        o.raw_values,
        "-n"@,
    ) + flag(o.recursive, "-r"@) + pairs("-ext"@, views(o.extensions@)) + opt_pair(
        "-if"@,
        opt_view(o.condition),
    ) + prefixed("--"@, views(o.exclude_tags@)) + prefixed("-"@, views(o.specific_tags@)) + paths
}

/// Output in a chosen format.
#[derive(Debug, Clone)]
pub struct FormattedOutput {
    pub format: OutputFormat,
    pub content: String,
}

impl FormattedOutput {
    /// The output's text.
    pub fn text(&self) -> (s: &str)
        ensures
            s@ == self.content@,
    {
        self.content.as_str()
    }
}

/// A read that names the same format the options ask for: the options'
/// own format is always the first argument.
pub proof fn law_read_args_start_with_format(o: ReadOptions, paths: Seq<Seq<char>>)
    ensures
        read_args(o, paths).len() >= 1 + paths.len(),
        read_args(o, paths)[0] == format_arg(o.format),
        read_args(o, paths).skip(read_args(o, paths).len() - paths.len()) == paths,
{
    let r = read_args(o, paths);
    let front = seq![format_arg(o.format)] + flag(o.table_format, "-T"@) + flag(o.hex_dump, "-H"@)
        + opt_one(verbose_arg(o.verbose)) + opt_pair("-lang"@, opt_view(o.lang)) + opt_pair(
        "-charset"@,
        opt_view(o.charset),
    ) + flag(o.raw_values, "-n"@) + flag(o.recursive, "-r"@) + pairs("-ext"@, views(o.extensions@))
        + opt_pair("-if"@, opt_view(o.condition)) + prefixed("--"@, views(o.exclude_tags@)) + prefixed(
        "-"@,
        views(o.specific_tags@),
    );
    assert(r == front + paths);
    assert(front[0] == format_arg(o.format));
    assert(r.skip(r.len() - paths.len()) =~= paths);
}

} // verus!
