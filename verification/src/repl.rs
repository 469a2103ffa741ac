//! The commands of the interactive shell.

use vstd::prelude::*;
use crate::batch::{join_space, join_with_space, suffix_from};
use crate::text::{all_ascii, ascii_lower, lowercase, owned, split_words, str_eq, to_lowercase, views, words_of};

verus! {

/// What a line typed into the shell asks for.
#[derive(Debug, Clone)]
pub enum ReplCommand {
    /// A blank line.
    Empty,
    Quit,
    Help,
    /// Read a file, or one tag of it.
    Read { path: String, tag: Option<String> },
    /// Write a tag; the value is the rest of the line.
    Write { path: String, tag: String, value: String },
    Delete { path: String, tag: String },
    Batch { paths: Vec<String> },
    Tags,
    Verbose,
    Version,
    /// A known command with too few arguments, and how to use it.
    Usage(String),
    /// An unknown command, lowercased.
    Unknown(String),
}

/// What a line asks for, as plain values.
pub enum ReplAction {
    Empty,
    Quit,
    Help,
    Read(Seq<char>, Option<Seq<char>>),
    Write(Seq<char>, Seq<char>, Seq<char>),
    Delete(Seq<char>, Seq<char>),
    Batch(Seq<Seq<char>>),
    Tags,
    Verbose,
    Version,
    Usage(Seq<char>),
    Unknown(Seq<char>),
}

impl View for ReplCommand {
    type V = ReplAction;

    open spec fn view(&self) -> ReplAction {
        match self {
            ReplCommand::Empty => ReplAction::Empty,
            ReplCommand::Quit => ReplAction::Quit,
            ReplCommand::Help => ReplAction::Help,
            ReplCommand::Read { path, tag } => ReplAction::Read(
                path@,
                match tag {
                    Some(t) => Some(t@),
                    None => None,
                },
            ),
            ReplCommand::Write { path, tag, value } => ReplAction::Write(path@, tag@, value@),
            ReplCommand::Delete { path, tag } => ReplAction::Delete(path@, tag@),
            ReplCommand::Batch { paths } => ReplAction::Batch(views(paths@)),
            ReplCommand::Tags => ReplAction::Tags,
            ReplCommand::Verbose => ReplAction::Verbose,
            ReplCommand::Version => ReplAction::Version,
            ReplCommand::Usage(m) => ReplAction::Usage(m@),
            ReplCommand::Unknown(c) => ReplAction::Unknown(c@),
        }
    }
}

/// What a lowercased command word with its arguments asks for. `read`,
/// `write`, `delete` and `batch` need at least one, three, two and one
/// arguments, else they answer with how to use them.
pub open spec fn repl_action(cmd: Seq<char>, args: Seq<Seq<char>>) -> ReplAction {
    if cmd == "quit"@ || cmd == "exit"@ || cmd == "q"@ {
        ReplAction::Quit
    } else if cmd == "help"@ || cmd == "h"@ {
        ReplAction::Help
    } else if cmd == "read"@ || cmd == "r"@ {
        if args.len() == 0 {
            ReplAction::Usage("用法: read <文件路径> [标签名]"@)
        } else {
            ReplAction::Read(args[0], if args.len() > 1 { Some(args[1]) } else { None })
        }
    } else if cmd == "write"@ || cmd == "w"@ {
        if args.len() < 3 {
            ReplAction::Usage("用法: write <文件路径> <标签名> <值>"@)
        } else {
            ReplAction::Write(args[0], args[1], join_with_space(args.skip(2)))
        }
    } else if cmd == "delete"@ || cmd == "d"@ {
        if args.len() < 2 {
            ReplAction::Usage("用法: delete <文件路径> <标签名>"@)
        } else {
            ReplAction::Delete(args[0], args[1])
        }
    } else if cmd == "batch"@ || cmd == "b"@ {
        if args.len() == 0 {
            ReplAction::Usage("用法: batch <文件路径1> [<文件路径2> ...]"@)
        } else {
            ReplAction::Batch(args)
        }
    } else if cmd == "tags"@ || cmd == "t"@ {
        ReplAction::Tags
    } else if cmd == "verbose"@ || cmd == "v"@ {
        ReplAction::Verbose
    } else if cmd == "version"@ {
        ReplAction::Version
    } else {
        ReplAction::Unknown(cmd)
    }
}

/// What a typed line asks for: its first word, lowercased, is the command
/// and the other words are its arguments.
pub open spec fn repl_line_action(input: Seq<char>) -> ReplAction {
    let ws = words_of(input);
    if ws.len() == 0 {
        ReplAction::Empty
    } else {
        repl_action(lowercase(ws[0]), ws.drop_first())
    }
}

/// Whether a word is one of the given names.
fn is_one_of(w: &str, a: &str, b: &str) -> (r: bool)
    ensures
        r == (w@ == a@ || w@ == b@),
{
    str_eq(w, a) || str_eq(w, b)
}

/// Tells what a lowercased command word with its arguments asks for.
pub fn classify_repl_command(cmd: &str, args: &Vec<String>) -> (c: ReplCommand)
    ensures
        c@ == repl_action(cmd@, views(args@)),
{
    let n = args.len();
    let ghost a = views(args@);
    assert(a.len() == n);
    if str_eq(cmd, "quit") || str_eq(cmd, "exit") || str_eq(cmd, "q") {
        ReplCommand::Quit
    } else if is_one_of(cmd, "help", "h") {
        ReplCommand::Help
    } else if is_one_of(cmd, "read", "r") {
        if n == 0 {
            ReplCommand::Usage(owned("用法: read <文件路径> [标签名]"))
        } else {
            assert(a[0] == args@[0]@);
            let tag = if n > 1 {
                assert(a[1] == args@[1]@);
                Some(args[1].clone())
            } else {
                None
            };
            ReplCommand::Read { path: args[0].clone(), tag }
        }
    } else if is_one_of(cmd, "write", "w") {
        if n < 3 {
            ReplCommand::Usage(owned("用法: write <文件路径> <标签名> <值>"))
        } else {
            assert(a[0] == args@[0]@);
            assert(a[1] == args@[1]@);
            let rest = suffix_from(args, 2);
            assert(a.subrange(2, n as int) =~= a.skip(2));
            let value = join_space(&rest);
            ReplCommand::Write { path: args[0].clone(), tag: args[1].clone(), value }
        }
    } else if is_one_of(cmd, "delete", "d") {
        if n < 2 {
            ReplCommand::Usage(owned("用法: delete <文件路径> <标签名>"))
        } else {
            assert(a[0] == args@[0]@);
            assert(a[1] == args@[1]@);
            ReplCommand::Delete { path: args[0].clone(), tag: args[1].clone() }
        }
    } else if is_one_of(cmd, "batch", "b") {
        if n == 0 {
            ReplCommand::Usage(owned("用法: batch <文件路径1> [<文件路径2> ...]"))
        } else {
            let paths = suffix_from(args, 0);
            assert(a.subrange(0, n as int) =~= a);
            ReplCommand::Batch { paths }
        }
    } else if is_one_of(cmd, "tags", "t") {
        ReplCommand::Tags
    } else if is_one_of(cmd, "verbose", "v") {
        ReplCommand::Verbose
    } else if str_eq(cmd, "version") {
        ReplCommand::Version
    } else {
        ReplCommand::Unknown(owned(cmd))
    }
}

/// Tells what a typed line asks for.
pub fn parse_repl_command(input: &str) -> (c: ReplCommand)
    ensures
        c@ == repl_line_action(input@),
        words_of(input@).len() > 0 && all_ascii(words_of(input@)[0]) ==> c@ == repl_action(
            ascii_lower(words_of(input@)[0]),
            words_of(input@).drop_first(),
        ),
{
    let words = split_words(input);
    if words.len() == 0 {
        ReplCommand::Empty
    } else {
        let cmd = to_lowercase(words[0].as_str());
        let args = suffix_from(&words, 1);
        assert(views(words@).subrange(1, words@.len() as int) =~= views(words@).drop_first());
        classify_repl_command(cmd.as_str(), &args)
    }
}

impl ReplCommand {
    /// Whether the command ends the shell.
    pub fn is_quit(&self) -> (b: bool)
        ensures
            b == (self@ is Quit),
    {
        match self {
            ReplCommand::Quit => true,
            _ => false,
        }
    }
}

/// The settings of the interactive shell.
#[derive(Debug, Clone, Copy)]
pub struct ReplSettings {
    pub verbose: bool,
    pub show_help_on_start: bool,
}

impl ReplSettings {
    /// Not verbose; help is shown on start.
    pub fn new() -> (s: Self)
        ensures
            !s.verbose,
            s.show_help_on_start,
    {
        ReplSettings { verbose: false, show_help_on_start: true }
    }

    /// Sets verbose output.
    pub fn verbose(self, yes: bool) -> (s: Self)
        ensures
            s.verbose == yes,
            s.show_help_on_start == self.show_help_on_start,
    {
        ReplSettings { verbose: yes, ..self }
    }

    /// Whether to show help on start.
    pub fn show_help_on_start(self, yes: bool) -> (s: Self)
        ensures
            s.show_help_on_start == yes,
            s.verbose == self.verbose,
    {
        ReplSettings { show_help_on_start: yes, ..self }
    }
}

/// The settings after a command: `verbose` toggles verbose output; every
/// other command leaves the settings as they are.
pub open spec fn settings_after(s: ReplSettings, a: ReplAction) -> ReplSettings {
    if a is Verbose {
        ReplSettings { verbose: !s.verbose, ..s }
    } else {
        s
    }
}

impl ReplSettings {
    /// The settings after a command.
    pub fn after(self, c: &ReplCommand) -> (s: Self)
        ensures
            s == settings_after(self, c@),
            c@ is Verbose ==> s.verbose == !self.verbose && s.show_help_on_start == self.show_help_on_start,
            !(c@ is Verbose) ==> s == self,
    {
        match c {
            ReplCommand::Verbose => ReplSettings { verbose: !self.verbose, ..self },
            _ => self,
        }
    }
}

/// The verbose command toggles: given twice, it leaves the settings as
/// they were, and given once it changes verbose output and nothing else.
pub proof fn law_verbose_toggles(s: ReplSettings)
    ensures
        settings_after(settings_after(s, ReplAction::Verbose), ReplAction::Verbose) == s,
        settings_after(s, ReplAction::Verbose).verbose == !s.verbose,
        settings_after(s, ReplAction::Verbose).show_help_on_start == s.show_help_on_start,
{
}

} // verus!
