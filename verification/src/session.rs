//! Settings of an ExifTool session and the arguments its operations send.
//!
//! A session keeps global arguments (such as a configuration file) that
//! go in front of every command it sends.

use vstd::prelude::*;
use crate::args::{push_all, push_arg, push_owned};
use crate::text::{
    chars_of, contains_chars, contains_seq, owned, push_dec, nat_dec, split_words, string_of_chars,
    trim, trim_chars, views, words_of,
};

verus! {

/// How to start an ExifTool session.
#[derive(Debug, Clone)]
pub struct ExifToolBuilder {
    pub executable: Option<String>,
    pub response_timeout_ms: Option<u64>,
    pub config_path: Option<String>,
}

impl ExifToolBuilder {
    /// The `exiftool` found on the search path, the default timeout and
    /// no configuration file.
    pub fn new() -> (b: Self)
        ensures
            b.executable is None,
            b.response_timeout_ms is None,
            b.config_path is None,
    {
        ExifToolBuilder { executable: None, response_timeout_ms: None, config_path: None }
    }

    /// Runs a given executable.
    pub fn executable(self, path: &str) -> (b: Self)
        ensures
            b.executable matches Some(e) && e@ == path@,
            b.response_timeout_ms == self.response_timeout_ms,
            b.config_path == self.config_path,
    {
        ExifToolBuilder { executable: Some(owned(path)), ..self }
    }

    /// Sets how long to wait for a response, in milliseconds.
    pub fn response_timeout(self, timeout_ms: u64) -> (b: Self)
        ensures
            b.response_timeout_ms == Some(timeout_ms),
            b.executable == self.executable,
            b.config_path == self.config_path,
    {
        ExifToolBuilder { response_timeout_ms: Some(timeout_ms), ..self }
    }

    /// Loads a configuration file (`-config`).
    pub fn config(self, path: &str) -> (b: Self)
        ensures
            b.config_path matches Some(c) && c@ == path@,
            b.executable == self.executable,
            b.response_timeout_ms == self.response_timeout_ms,
    {
        ExifToolBuilder { config_path: Some(owned(path)), ..self }
    }

    /// The executable to run: the one given, else `exiftool`.
    pub fn executable_path(&self) -> (s: String)
        ensures
            s@ == (match self.executable {
                Some(e) => e@,
                None => "exiftool"@,
            }),
    {
        match &self.executable {
            Some(e) => e.clone(),
            None => owned("exiftool"),
        }
    }

    /// The response timeout in milliseconds: the one given, else 30 s.
    pub fn timeout_ms(&self) -> (t: u64)
        ensures
            t == (match self.response_timeout_ms {
                Some(v) => v,
                None => 30000u64,
            }),
    {
        match self.response_timeout_ms {
            Some(v) => v,
            None => 30000,
        }
    }

    /// The global arguments of the session: `-config` and the file, when
    /// one was given.
    pub fn global_args(&self) -> (r: Vec<String>)
        ensures
            views(r@) == (match self.config_path {
                Some(c) => seq!["-config"@, c@],
                None => Seq::<Seq<char>>::empty(),
            }),
    {
        let mut args: Vec<String> = Vec::new();
        match &self.config_path {
            Some(c) => {
                push_arg(&mut args, "-config");
                push_arg(&mut args, c.as_str());
            },
            None => {},
        }
        args
    }
}

impl Default for ExifToolBuilder {
    fn default() -> (b: Self)
        ensures
            b.executable is None,
            b.response_timeout_ms is None,
            b.config_path is None,
    {
        ExifToolBuilder::new()
    }
}

/// The global arguments with a configuration file added (`with_config`).
pub fn with_config_args(global: &Vec<String>, path: &str) -> (r: Vec<String>)
    ensures
        views(r@) == views(global@) + seq!["-config"@, path@],
{
    let mut args: Vec<String> = Vec::new();
    push_all(&mut args, global);
    push_arg(&mut args, "-config");
    push_arg(&mut args, path);
    assert(views(args@) =~= views(global@) + seq!["-config"@, path@]);
    args
}

/// A command with the session's global arguments in front.
pub fn merge_args(global: &Vec<String>, args: &Vec<String>) -> (r: Vec<String>)
    ensures
        views(r@) == views(global@) + views(args@),
{
    let mut merged: Vec<String> = Vec::new();
    push_all(&mut merged, global);
    push_all(&mut merged, args);
    assert(views(merged@) =~= views(global@) + views(args@));
    merged
}

/// Each of several commands with the global arguments in front.
pub fn merge_each(global: &Vec<String>, commands: &Vec<Vec<String>>) -> (r: Vec<Vec<String>>)
    ensures
        r@.len() == commands@.len(),
        forall|i: int| 0 <= i < r@.len() ==> views((#[trigger] r@[i])@) == views(global@) + views(commands@[i]@),
{
    let mut out: Vec<Vec<String>> = Vec::new();
    let mut i: usize = 0;
    while i < commands.len()
        invariant
            i <= commands@.len(),
            out@.len() == i,
            forall|k: int| 0 <= k < i ==> views((#[trigger] out@[k])@) == views(global@) + views(commands@[k]@),
        decreases commands@.len() - i,
    {
        let m = merge_args(global, &commands[i]);
        out.push(m);
        i = i + 1;
    }
    out
}

/// What ExifTool's metadata counts of a session are.
#[derive(Debug, Clone)]
pub struct CapabilitySnapshot {
    pub version: String,
    pub tags_count: usize,
    pub writable_tags_count: usize,
    pub file_extensions_count: usize,
    pub writable_file_extensions_count: usize,
    pub groups_count: usize,
    pub descriptions_count: usize,
}

/// The words of a listing (`-listw`, `-listf`, `-listg` and the like).
pub fn parse_word_list(text: &str) -> (r: Vec<String>)
    ensures
        views(r@) == words_of(text@),
{
    split_words(text)
}

/// The version ExifTool printed: the response text, trimmed.
pub fn version_text(text: &str) -> (r: String)
    ensures
        r@ == trim(text@),
{
    let c = chars_of(text);
    let t = trim_chars(&c);
    string_of_chars(&t)
}

/// Whether a trimmed line of `-list` output names tags.
pub open spec fn lists_tags(t: Seq<char>) -> bool {
    t.len() > 0 && t[0] != '-' && !contains_seq(t, "Command-line"@)
}

/// The trimmed lines of `-list` output that name tags: not empty, not
/// starting with `-`, and without `Command-line`.
pub open spec fn listed_tags(lines: Seq<Seq<char>>) -> Seq<Seq<char>>
    decreases lines.len(),
{
    if lines.len() == 0 {
        Seq::<Seq<char>>::empty()
    } else if lists_tags(trim(lines.last())) {
        listed_tags(lines.drop_last()).push(trim(lines.last()))
    } else {
        listed_tags(lines.drop_last())
    }
}

/// Picks the tag lines out of `-list` output.
pub fn filter_tag_lines(lines: &Vec<String>) -> (r: Vec<String>)
    ensures
        views(r@) == listed_tags(views(lines@)),
{
    let cl = chars_of("Command-line");
    let mut out: Vec<String> = Vec::new();
    let mut i: usize = 0;
    assert(views(lines@).take(0) =~= Seq::<Seq<char>>::empty());
    while i < lines.len()
        invariant
            i <= lines@.len(),
            cl@ == "Command-line"@,
            views(out@) == listed_tags(views(lines@).take(i as int)),
        decreases lines@.len() - i,
    {
        assert(views(lines@).take(i + 1).drop_last() =~= views(lines@).take(i as int));
        assert(views(lines@).take(i + 1).last() == lines@[i as int]@);
        let c = chars_of(lines[i].as_str());
        let t = trim_chars(&c);
        if t.len() > 0 && t[0] != '-' && !contains_chars(&t, &cl) {
            push_owned(&mut out, string_of_chars(&t));
        }
        i = i + 1;
    }
    assert(views(lines@).take(lines@.len() as int) =~= views(lines@));
    out
}

/// The option that lists the groups of a family: `-listg`, with the
/// family's number for families other than 0.
pub fn list_groups_family_arg(family: u8) -> (s: String)
    ensures
        s@ == (if family == 0 { "-listg"@ } else { "-listg"@ + nat_dec(family as nat) }),
{
    let mut s = owned("-listg");
    if family != 0 {
        push_dec(&mut s, family as u64);
    }
    s
}

/// The arguments that delete the backup of a file: `-delete_original`, or
/// `-delete_original!` without asking, and the file.
pub fn delete_original_args(path: &str, force: bool) -> (r: Vec<String>)
    ensures
        views(r@) == seq![if force { "-delete_original!"@ } else { "-delete_original"@ }, path@],
{
    let mut args: Vec<String> = Vec::new();
    if force {
        push_arg(&mut args, "-delete_original!");
    } else {
        push_arg(&mut args, "-delete_original");
    }
    push_arg(&mut args, path);
    args
}

/// The arguments that put a file's backup back: `-restore_original` and
/// the file.
pub fn restore_original_args(path: &str) -> (r: Vec<String>)
    ensures
        views(r@) == seq!["-restore_original"@, path@],
{
    let mut args: Vec<String> = Vec::new();
    push_arg(&mut args, "-restore_original");
    push_arg(&mut args, path);
    args
}

} // verus!
