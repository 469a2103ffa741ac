//! Batch scripts: a small line-oriented language of ExifTool commands.
//!
//! Running a script needs the ExifTool process; this module holds what a
//! script is, how its text is parsed, and the bookkeeping of a run.

use vstd::prelude::*;
use crate::error::{Error, Result};
use crate::text::{
    chars_of, concat2, is_whitespace, is_ws, line_pieces, lines_of, split_newlines, lowercase, str_eq,
    string_of_chars, to_lowercase, trim, trim_chars, trim_end, trim_start, views,
};

verus! {

// ---------------------------------------------------------------------------
// Quote-aware tokenizer
// ---------------------------------------------------------------------------

/// State of the tokenizer: the finished tokens, the token being read, and
/// the quote character that is open, if any.
pub type SplitState = (Seq<Seq<char>>, Seq<char>, Option<char>);

/// One character's effect on the tokenizer. Inside quotes every character
/// but the closing quote is kept; outside, `"` or `'` opens a quote,
/// whitespace ends the current token, and anything else is kept.
pub open spec fn split_step(st: SplitState, c: char) -> SplitState {
    let (toks, cur, q) = st;
    match q {
        Some(qc) => if c == qc {
            (toks, cur, None)
        } else {
            (toks, cur.push(c), q)
        },
        None => if c == '"' || c == '\'' {
            (toks, cur, Some(c))
        } else if is_ws(c) {
            if cur.len() > 0 {
                (toks.push(cur), Seq::<char>::empty(), None)
            } else {
                (toks, cur, None)
            }
        } else {
            (toks, cur.push(c), None)
        },
    }
}

/// The tokenizer state after reading `s` from the state `st`.
pub open spec fn split_run(st: SplitState, s: Seq<char>) -> SplitState
    decreases s.len(),
{
    if s.len() == 0 {
        st
    } else {
        split_step(split_run(st, s.drop_last()), s.last())
    }
}

/// The start state: no tokens, nothing read, no quote open.
pub open spec fn split_start() -> SplitState {
    (Seq::<Seq<char>>::empty(), Seq::<char>::empty(), None)
}

/// The tokens of a line: words separated by whitespace, where a stretch in
/// double or single quotes belongs to the word around it, quotes removed,
/// and an unterminated quote runs to the end of the line.
pub open spec fn split_quoted_spec(s: Seq<char>) -> Seq<Seq<char>> {
    let (toks, cur, _q) = split_run(split_start(), s);
    if cur.len() > 0 {
        toks.push(cur)
    } else {
        toks
    }
}

/// Splits a character sequence into quote-aware tokens.
pub fn split_quoted_chars(v: &[char]) -> (r: Vec<String>)
    ensures
        views(r@) == split_quoted_spec(v@),
{
    let mut tokens: Vec<String> = Vec::new();
    let mut current: Vec<char> = Vec::new();
    let mut in_quote: Option<char> = None;
    let mut i: usize = 0;
    assert(v@.take(0) =~= Seq::<char>::empty());
    while i < v.len()
        invariant
            i <= v@.len(),
            split_run(split_start(), v@.take(i as int)) == (views(tokens@), current@, in_quote),
        decreases v@.len() - i,
    {
        let ch = v[i];
        assert(v@.take(i + 1).drop_last() =~= v@.take(i as int));
        assert(v@.take(i + 1).last() == ch);
        match in_quote {
            Some(q) => {
                if ch == q {
                    in_quote = None;
                } else {
                    current.push(ch);
                }
            },
            None => {
                if ch == '"' || ch == '\'' {
                    in_quote = Some(ch);
                } else if is_whitespace(ch) {
                    if current.len() > 0 {
                        let tok = string_of_chars(&current);
                        tokens.push(tok);
                        current = Vec::new();
                        assert(views(tokens@) =~= views(tokens@.drop_last()).push(tok@));
                    }
                } else {
                    current.push(ch);
                }
            },
        }
        i = i + 1;
    }
    assert(v@.take(v@.len() as int) =~= v@);
    if current.len() > 0 {
        let tok = string_of_chars(&current);
        tokens.push(tok);
        assert(views(tokens@) =~= views(tokens@.drop_last()).push(tok@));
    }
    tokens
}

/// Splits a line into tokens, honouring double and single quotes.
pub fn split_quoted(input: &str) -> (r: Vec<String>)
    ensures
        views(r@) == split_quoted_spec(input@),
{
    let v = chars_of(input);
    split_quoted_chars(&v)
}


// ---------------------------------------------------------------------------
// Joining and slicing token lists
// ---------------------------------------------------------------------------

/// Words joined with single spaces (`[&str]::join(" ")`).
pub open spec fn join_with_space(ws: Seq<Seq<char>>) -> Seq<char>
    decreases ws.len(),
{
    if ws.len() == 0 {
        Seq::<char>::empty()
    } else if ws.len() == 1 {
        ws[0]
    } else {
        join_with_space(ws.drop_last()) + seq![' '] + ws.last()
    }
}

/// Joins words with single spaces.
pub fn join_space(ws: &[String]) -> (r: String)
    ensures
        r@ == join_with_space(views(ws@)),
{
    let mut r = String::new();
    let mut i: usize = 0;
    assert(views(ws@).take(0) =~= Seq::<Seq<char>>::empty());
    while i < ws.len()
        invariant
            i <= ws@.len(),
            r@ == join_with_space(views(ws@).take(i as int)),
        decreases ws@.len() - i,
    {
        if i > 0 {
            crate::text::push_char(&mut r, ' ');
        }
        r.append(ws[i].as_str());
        assert(views(ws@).take(i + 1).drop_last() =~= views(ws@).take(i as int));
        i = i + 1;
    }
    assert(views(ws@).take(ws@.len() as int) =~= views(ws@));
    r
}

/// The strings of `v` from position `k` on, copied.
pub(crate) fn suffix_from(v: &Vec<String>, k: usize) -> (r: Vec<String>)
    requires
        k <= v@.len(),
    ensures
        views(r@) == views(v@).subrange(k as int, v@.len() as int),
{
    let mut r: Vec<String> = Vec::new();
    let mut i: usize = k;
    while i < v.len()
        invariant
            k <= i <= v@.len(),
            views(r@) == views(v@).subrange(k as int, i as int),
        decreases v@.len() - i,
    {
        let x = v[i].clone();
        let ghost before = r@;
        r.push(x);
        assert(r@ == before.push(x));
        assert(views(r@) =~= views(before).push(x@));
        assert(views(r@) =~= views(v@).subrange(k as int, i + 1));
        i = i + 1;
    }
    r
}

// ---------------------------------------------------------------------------
// Laws of the tokenizer
// ---------------------------------------------------------------------------

proof fn lemma_split_run_append(st: SplitState, s: Seq<char>, t: Seq<char>)
    ensures
        split_run(st, s + t) == split_run(split_run(st, s), t),
    decreases t.len(),
{
    if t.len() == 0 {
        assert(s + t =~= s);
    } else {
        assert((s + t).drop_last() =~= s + t.drop_last());
        assert((s + t).last() == t.last());
        lemma_split_run_append(st, s, t.drop_last());
    }
}

/// A plain word: not empty, without whitespace or quote characters.
pub open spec fn plain_word(w: Seq<char>) -> bool {
    &&& w.len() > 0
    &&& forall|j: int| 0 <= j < w.len() ==> !is_ws(#[trigger] w[j]) && w[j] != '"' && w[j] != '\''
}

proof fn lemma_split_run_word(toks: Seq<Seq<char>>, w: Seq<char>)
    requires
        forall|j: int| 0 <= j < w.len() ==> !is_ws(#[trigger] w[j]) && w[j] != '"' && w[j] != '\'',
    ensures
        split_run((toks, Seq::<char>::empty(), None), w) == (toks, w, None::<char>),
    decreases w.len(),
{
    if w.len() > 0 {
        let p = w.drop_last();
        assert forall|j: int| 0 <= j < p.len() implies !is_ws(#[trigger] p[j]) && p[j] != '"'
            && p[j] != '\'' by {
            assert(p[j] == w[j]);
        }
        lemma_split_run_word(toks, p);
        assert(p.push(w.last()) =~= w);
    }
}

proof fn lemma_split_run_join(ws: Seq<Seq<char>>)
    requires
        ws.len() > 0,
        forall|i: int| 0 <= i < ws.len() ==> plain_word(#[trigger] ws[i]),
    ensures
        split_run(split_start(), join_with_space(ws)) == (ws.drop_last(), ws.last(), None::<char>),
    decreases ws.len(),
{
    if ws.len() == 1 {
        assert(plain_word(ws[0]));
        lemma_split_run_word(Seq::<Seq<char>>::empty(), ws[0]);
        assert(ws.drop_last() =~= Seq::<Seq<char>>::empty());
    } else {
        let init = ws.drop_last();
        assert forall|i: int| 0 <= i < init.len() implies plain_word(#[trigger] init[i]) by {
            assert(init[i] == ws[i]);
        }
        lemma_split_run_join(init);
        let j = join_with_space(init);
        assert(join_with_space(ws) == (j + seq![' ']) + ws.last());
        lemma_split_run_append(split_start(), j + seq![' '], ws.last());
        lemma_split_run_append(split_start(), j, seq![' ']);
        let st1 = split_run(split_start(), j);
        assert(st1 == (init.drop_last(), init.last(), None::<char>));
        let sp: Seq<char> = seq![' '];
        assert(sp.drop_last() =~= Seq::<char>::empty());
        assert(sp.last() == ' ');
        assert(sp.len() == 1);
        assert(split_run(st1, sp.drop_last()) == st1);
        assert(split_run(st1, sp) == split_step(st1, ' '));
        assert(plain_word(init.last()));
        assert(init.drop_last().push(init.last()) =~= init);
        assert(split_step(st1, ' ') == (init, Seq::<char>::empty(), None::<char>));
        assert(plain_word(ws.last()));
        lemma_split_run_word(init, ws.last());
    }
}

/// Law: the tokenizer gives back plain words joined by single spaces,
/// word for word.
pub proof fn law_split_quoted_join_roundtrip(ws: Seq<Seq<char>>)
    requires
        forall|i: int| 0 <= i < ws.len() ==> plain_word(#[trigger] ws[i]),
    ensures
        split_quoted_spec(join_with_space(ws)) == ws,
{
    if ws.len() == 0 {
        assert(split_quoted_spec(Seq::<char>::empty()) =~= ws);
    } else {
        lemma_split_run_join(ws);
        assert(plain_word(ws.last()));
        assert(ws.drop_last().push(ws.last()) =~= ws);
    }
}

proof fn lemma_split_run_tokens_nonempty(s: Seq<char>)
    ensures
        forall|i: int|
            0 <= i < split_run(split_start(), s).0.len() ==> #[trigger] split_run(
                split_start(),
                s,
            ).0[i].len() > 0,
    decreases s.len(),
{
    if s.len() > 0 {
        lemma_split_run_tokens_nonempty(s.drop_last());
        let prev = split_run(split_start(), s.drop_last());
        let next = split_step(prev, s.last());
        assert(split_run(split_start(), s) == next);
        assert forall|i: int| 0 <= i < next.0.len() implies #[trigger] next.0[i].len() > 0 by {
            if i < prev.0.len() {
                assert(next.0[i] == prev.0[i]);
            }
        }
    }
}

/// Law: the tokenizer never yields an empty token, even for empty quotes.
pub proof fn law_split_quoted_tokens_nonempty(s: Seq<char>)
    ensures
        forall|i: int|
            0 <= i < split_quoted_spec(s).len() ==> #[trigger] split_quoted_spec(s)[i].len() > 0,
{
    lemma_split_run_tokens_nonempty(s);
}

// ---------------------------------------------------------------------------
// Scripts
// ---------------------------------------------------------------------------

/// One command of a batch script.
#[derive(Debug, Clone)]
pub enum ScriptCommand {
    /// Read a file's metadata, or the listed tags of it.
    Read { path: String, tags: Option<Vec<String>> },
    /// Write one tag.
    Write { path: String, tag: String, value: String },
    /// Delete one tag.
    Delete { path: String, tag: String },
    /// Read several files at once.
    BatchRead { paths: Vec<String> },
    /// Print a message.
    Print(String),
}

/// A script command with its strings as character sequences.
pub enum CommandView {
    Read(Seq<char>, Option<Seq<Seq<char>>>),
    Write(Seq<char>, Seq<char>, Seq<char>),
    Delete(Seq<char>, Seq<char>),
    BatchRead(Seq<Seq<char>>),
    Print(Seq<char>),
}

impl View for ScriptCommand {
    type V = CommandView;

    open spec fn view(&self) -> CommandView {
        match self {
            ScriptCommand::Read { path, tags } => CommandView::Read(
                path@,
                match tags {
                    Some(t) => Some(views(t@)),
                    None => None,
                },
            ),
            ScriptCommand::Write { path, tag, value } => CommandView::Write(path@, tag@, value@),
            ScriptCommand::Delete { path, tag } => CommandView::Delete(path@, tag@),
            ScriptCommand::BatchRead { paths } => CommandView::BatchRead(views(paths@)),
            ScriptCommand::Print(m) => CommandView::Print(m@),
        }
    }
}

/// The views of a list of commands.
pub open spec fn command_views(v: Seq<ScriptCommand>) -> Seq<CommandView> {
    v.map_values(|c: ScriptCommand| c@)
}

/// What one line of a script does.
pub enum LineEffect {
    /// Nothing: blank, comment, or a command without enough arguments.
    Skip,
    /// Appends a command.
    Add(CommandView),
    /// Sets whether progress is shown.
    Progress(bool),
    /// Sets whether a failed command stops the run.
    ContinueOnError(bool),
    /// A command word that the language does not have (lowercased).
    Unknown(Seq<char>),
}

/// The effect of a command word (already lowercased) with its arguments.
pub open spec fn command_effect(cmd: Seq<char>, args: Seq<Seq<char>>) -> LineEffect {
    if cmd == "read"@ {
        if args.len() > 0 {
            LineEffect::Add(
                CommandView::Read(
                    args[0],
                    if args.len() > 1 {
                        Some(args.drop_first())
                    } else {
                        None
                    },
                ),
            )
        } else {
            LineEffect::Skip
        }
    } else if cmd == "write"@ {
        if args.len() >= 3 {
            LineEffect::Add(
                CommandView::Write(
                    args[0],
                    args[1],
                    join_with_space(args.subrange(2, args.len() as int)),
                ),
            )
        } else {
            LineEffect::Skip
        }
    } else if cmd == "delete"@ {
        if args.len() >= 2 {
            LineEffect::Add(CommandView::Delete(args[0], args[1]))
        } else {
            LineEffect::Skip
        }
    } else if cmd == "batch"@ {
        if args.len() > 0 {
            LineEffect::Add(CommandView::BatchRead(args))
        } else {
            LineEffect::Skip
        }
    } else if cmd == "print"@ {
        if args.len() > 0 {
            LineEffect::Add(CommandView::Print(join_with_space(args)))
        } else {
            LineEffect::Skip
        }
    } else if cmd == "progress"@ {
        LineEffect::Progress(args.len() == 0 || args[0] != "off"@)
    } else if cmd == "continue_on_error"@ {
        LineEffect::ContinueOnError(args.len() == 0 || args[0] == "on"@)
    } else {
        LineEffect::Unknown(cmd)
    }
}

/// The effect of one line: blank lines and lines starting with `#` are
/// skipped; otherwise the first token, lowercased, names the command.
pub open spec fn line_effect(line: Seq<char>) -> LineEffect {
    let t = trim(line);
    if t.len() == 0 || t[0] == '#' {
        LineEffect::Skip
    } else {
        let parts = split_quoted_spec(t);
        if parts.len() == 0 {
            LineEffect::Skip
        } else {
            command_effect(lowercase(parts[0]), parts.drop_first())
        }
    }
}

/// A parsed script: its commands, whether progress is shown, and whether
/// a failed command lets the run go on.
pub type ScriptSpec = (Seq<CommandView>, bool, bool);

/// The script that lines describe, or the first unknown command word.
pub open spec fn parse_lines(lines: Seq<Seq<char>>) -> std::result::Result<ScriptSpec, Seq<char>>
    decreases lines.len(),
{
    if lines.len() == 0 {
        Ok((Seq::<CommandView>::empty(), true, false))
    } else {
        match parse_lines(lines.drop_last()) {
            Err(c) => Err(c),
            Ok((cmds, p, k)) => match line_effect(lines.last()) {
                LineEffect::Skip => Ok((cmds, p, k)),
                LineEffect::Add(c) => Ok((cmds.push(c), p, k)),
                LineEffect::Progress(b) => Ok((cmds, b, k)),
                LineEffect::ContinueOnError(b) => Ok((cmds, p, b)),
                LineEffect::Unknown(c) => Err(c),
            },
        }
    }
}

/// Once a prefix of the lines names an unknown command, so do all lines.
proof fn lemma_parse_lines_error_persists(lines: Seq<Seq<char>>, j: int)
    requires
        0 <= j <= lines.len(),
        parse_lines(lines.take(j)) is Err,
    ensures
        parse_lines(lines) == parse_lines(lines.take(j)),
    decreases lines.len(),
{
    if j < lines.len() {
        assert(lines.drop_last().take(j) =~= lines.take(j));
        lemma_parse_lines_error_persists(lines.drop_last(), j);
    } else {
        assert(lines.take(j) =~= lines);
    }
}

proof fn lemma_join_ends(ws: Seq<Seq<char>>)
    requires
        ws.len() > 0,
        forall|i: int| 0 <= i < ws.len() ==> plain_word(#[trigger] ws[i]),
    ensures
        join_with_space(ws).len() > 0,
        join_with_space(ws)[0] == ws[0][0],
        join_with_space(ws).last() == ws.last().last(),
    decreases ws.len(),
{
    assert(plain_word(ws[0]));
    assert(plain_word(ws.last()));
    if ws.len() > 1 {
        let front = ws.drop_last();
        assert forall|i: int| 0 <= i < front.len() implies plain_word(#[trigger] front[i]) by {
            assert(front[i] == ws[i]);
        }
        lemma_join_ends(front);
        assert(front[0] == ws[0]);
        let j = join_with_space(ws);
        assert(j == join_with_space(front) + seq![' '] + ws.last());
    }
}

proof fn lemma_join_no_newline(ws: Seq<Seq<char>>)
    requires
        forall|i: int| 0 <= i < ws.len() ==> plain_word(#[trigger] ws[i]),
    ensures
        forall|k: int| 0 <= k < join_with_space(ws).len() ==> #[trigger] join_with_space(ws)[k] != '\n',
    decreases ws.len(),
{
    if ws.len() == 1 {
        assert(plain_word(ws[0]));
        assert(is_ws('\n'));
    } else if ws.len() > 1 {
        let front = ws.drop_last();
        assert forall|i: int| 0 <= i < front.len() implies plain_word(#[trigger] front[i]) by {
            assert(front[i] == ws[i]);
        }
        lemma_join_no_newline(front);
        assert(plain_word(ws.last()));
        assert(is_ws('\n'));
        let j = join_with_space(ws);
        let jf = join_with_space(front);
        assert(j == jf + seq![' '] + ws.last());
        assert forall|k: int| 0 <= k < j.len() implies #[trigger] j[k] != '\n' by {
            if k < jf.len() {
                assert(j[k] == jf[k]);
            } else if k == jf.len() {
                assert(j[k] == ' ');
            } else {
                assert(j[k] == ws.last()[k - jf.len() - 1]);
            }
        }
    }
}

proof fn lemma_one_piece(s: Seq<char>)
    requires
        forall|k: int| 0 <= k < s.len() ==> #[trigger] s[k] != '\n',
    ensures
        split_newlines(s) == seq![s],
    decreases s.len(),
{
    if s.len() > 0 {
        let f = s.drop_last();
        assert forall|k: int| 0 <= k < f.len() implies #[trigger] f[k] != '\n' by {
            assert(f[k] == s[k]);
        }
        lemma_one_piece(f);
        assert(f.push(s.last()) =~= s);
        assert(seq![f].update(0, f.push(s.last())) =~= seq![s]);
    } else {
        assert(s =~= Seq::<char>::empty());
    }
}

proof fn lemma_trim_unchanged(s: Seq<char>)
    requires
        s.len() > 0,
        !is_ws(s[0]),
        !is_ws(s.last()),
    ensures
        trim(s) == s,
{
    assert(trim_start(s) == s);
    assert(trim_end(s) == s);
}

/// The line `CMD PATH TAG W1 .. Wn` of plain words.
pub open spec fn write_line(c: Seq<char>, p: Seq<char>, t: Seq<char>, w: Seq<Seq<char>>) -> Seq<char> {
    join_with_space(seq![c, p, t] + w)
}

/// A `write` line sets the tag to the whole rest of the line: for plain
/// words, the command's value is text whose words are exactly the words
/// after the tag, and the line alone (which is one line of text) makes a
/// script of that one command.
pub proof fn law_write_line_keeps_whole_value(c: Seq<char>, p: Seq<char>, t: Seq<char>, w: Seq<Seq<char>>)
    requires
        plain_word(c),
        plain_word(p),
        plain_word(t),
        w.len() >= 1,
        forall|i: int| 0 <= i < w.len() ==> plain_word(#[trigger] w[i]),
        c[0] != '#',
        lowercase(c) == "write"@,
    ensures
        exists|v: Seq<char>|
            #![trigger split_quoted_spec(v)]
            split_quoted_spec(v) == w && line_effect(write_line(c, p, t, w)) == LineEffect::Add(
                CommandView::Write(p, t, v),
            ) && parse_lines(seq![write_line(c, p, t, w)]) == Ok::<ScriptSpec, Seq<char>>(
                (seq![CommandView::Write(p, t, v)], true, false),
            ),
        line_pieces(write_line(c, p, t, w)) == seq![write_line(c, p, t, w)],
{
    let ws = seq![c, p, t] + w;
    assert forall|i: int| 0 <= i < ws.len() implies plain_word(#[trigger] ws[i]) by {
        if i >= 3 {
            assert(ws[i] == w[i - 3]);
        }
    }
    let line = write_line(c, p, t, w);
    lemma_join_ends(ws);
    assert(ws[0] == c);
    assert(ws.last() == w.last());
    assert(plain_word(w.last()));
    assert(!is_ws(c[0]));
    assert(!is_ws(w.last().last()));
    lemma_trim_unchanged(line);
    law_split_quoted_join_roundtrip(ws);
    let parts = split_quoted_spec(line);
    assert(parts == ws);
    let args = parts.drop_first();
    assert(args =~= seq![p, t] + w);
    assert(args.subrange(2, args.len() as int) =~= w);
    let v = join_with_space(w);
    law_split_quoted_join_roundtrip(w);
    assert(trim(line) == line);
    assert(line[0] == c[0]);
    assert(parts.len() > 0 && parts[0] == c);
    assert(args.len() >= 3 && args[0] == p && args[1] == t);
    reveal_strlit("read");
    reveal_strlit("write");
    assert("write"@ != "read"@) by {
        assert("write"@[0] != "read"@[0]);
    }
    assert(command_effect("write"@, args) == LineEffect::Add(CommandView::Write(p, t, v)));
    assert(command_effect(lowercase(parts[0]), parts.drop_first()) == LineEffect::Add(
        CommandView::Write(p, t, v),
    ));
    assert(line_effect(line) == LineEffect::Add(CommandView::Write(p, t, v)));
    let one = seq![line];
    assert(one.drop_last() =~= Seq::<Seq<char>>::empty());
    assert(one.last() == line);
    assert(parse_lines(one.drop_last()) == Ok::<ScriptSpec, Seq<char>>((Seq::<CommandView>::empty(), true, false)));
    assert(Seq::<CommandView>::empty().push(CommandView::Write(p, t, v)) =~= seq![CommandView::Write(p, t, v)]);
    assert(parse_lines(one) == Ok::<ScriptSpec, Seq<char>>((seq![CommandView::Write(p, t, v)], true, false)));
    assert(split_quoted_spec(v) == w);
    lemma_join_no_newline(ws);
    lemma_one_piece(line);
    assert(split_newlines(line).last().len() > 0);
}

/// A batch script: a list of commands and two run settings.
#[derive(Debug, Clone)]
pub struct BatchScript {
    commands: Vec<ScriptCommand>,
    show_progress: bool,
    continue_on_error: bool,
}

/// What one command word with its arguments does, as a value.
enum Effect {
    Skip,
    Add(ScriptCommand),
    Progress(bool),
    ContinueOnError(bool),
    Unknown,
}

spec fn effect_is(e: Effect, le: LineEffect) -> bool {
    match e {
        Effect::Skip => le is Skip,
        Effect::Add(c) => le matches LineEffect::Add(v) && v == c@,
        Effect::Progress(b) => le matches LineEffect::Progress(x) && x == b,
        Effect::ContinueOnError(b) => le matches LineEffect::ContinueOnError(x) && x == b,
        Effect::Unknown => le is Unknown,
    }
}

fn interpret(cmd: &str, parts: &Vec<String>) -> (e: Effect)
    requires
        parts@.len() >= 1,
    ensures
        effect_is(e, command_effect(cmd@, views(parts@).drop_first())),
{
    let ghost args = views(parts@).drop_first();
    let n = parts.len() - 1;
    assert(args.len() == n);
    if str_eq(cmd, "read") {
        if n > 0 {
            let tags = if n > 1 {
                let t = suffix_from(parts, 2);
                assert(views(t@) =~= args.drop_first());
                Some(t)
            } else {
                None
            };
            Effect::Add(ScriptCommand::Read { path: parts[1].clone(), tags })
        } else {
            Effect::Skip
        }
    } else if str_eq(cmd, "write") {
        if n >= 3 {
            let rest = suffix_from(parts, 3);
            assert(views(rest@) =~= args.subrange(2, args.len() as int));
            let value = join_space(&rest);
            Effect::Add(
                ScriptCommand::Write { path: parts[1].clone(), tag: parts[2].clone(), value },
            )
        } else {
            Effect::Skip
        }
    } else if str_eq(cmd, "delete") {
        if n >= 2 {
            Effect::Add(ScriptCommand::Delete { path: parts[1].clone(), tag: parts[2].clone() })
        } else {
            Effect::Skip
        }
    } else if str_eq(cmd, "batch") {
        if n > 0 {
            let paths = suffix_from(parts, 1);
            assert(views(paths@) =~= args);
            Effect::Add(ScriptCommand::BatchRead { paths })
        } else {
            Effect::Skip
        }
    } else if str_eq(cmd, "print") {
        if n > 0 {
            let words = suffix_from(parts, 1);
            assert(views(words@) =~= args);
            Effect::Add(ScriptCommand::Print(join_space(&words)))
        } else {
            Effect::Skip
        }
    } else if str_eq(cmd, "progress") {
        if n == 0 {
            Effect::Progress(true)
        } else {
            Effect::Progress(!str_eq(parts[1].as_str(), "off"))
        }
    } else if str_eq(cmd, "continue_on_error") {
        if n == 0 {
            Effect::ContinueOnError(true)
        } else {
            Effect::ContinueOnError(str_eq(parts[1].as_str(), "on"))
        }
    } else {
        Effect::Unknown
    }
}

impl BatchScript {
    /// The abstract script: commands and the two settings.
    pub closed spec fn spec(&self) -> ScriptSpec {
        (command_views(self.commands@), self.show_progress, self.continue_on_error)
    }

    /// An empty script that shows progress and stops at the first failure.
    pub fn new() -> (s: Self)
        ensures
            s.spec() == (Seq::<CommandView>::empty(), true, false),
    {
        let s = BatchScript { commands: Vec::new(), show_progress: true, continue_on_error: false };
        assert(command_views(s.commands@) =~= Seq::<CommandView>::empty());
        s
    }

    /// Parses a script. Each line is trimmed; blank lines and `#` comments
    /// are skipped; the first token, lowercased, is the command. An
    /// unknown command is an `InvalidArgument` error naming it.
    pub fn from_string(content: String) -> (r: Result<Self>)
        ensures
            match parse_lines(line_pieces(content@)) {
                Ok(sp) => r matches Ok(s) && s.spec() == sp,
                Err(c) => r matches Err(Error::InvalidArgument(m)) && m@ == "未知命令: "@ + c,
            },
    {
        let chars = chars_of(content.as_str());
        let lines = lines_of(&chars);
        let ghost ls = lines@.map_values(|l: Vec<char>| l@);
        let mut script = BatchScript::new();
        let mut i: usize = 0;
        assert(ls.take(0) =~= Seq::<Seq<char>>::empty());
        while i < lines.len()
            invariant
                i <= lines@.len(),
                ls == lines@.map_values(|l: Vec<char>| l@),
                ls == line_pieces(content@),
                parse_lines(ls.take(i as int)) == Ok::<ScriptSpec, Seq<char>>(script.spec()),
            decreases lines@.len() - i,
        {
            assert(ls.take(i + 1).drop_last() =~= ls.take(i as int));
            assert(ls.take(i + 1).last() == lines@[i as int]@);
            let line = trim_chars(&lines[i]);
            if line.len() == 0 || line[0] == '#' {
                i = i + 1;
                continue;
            }
            let parts = split_quoted_chars(&line);
            if parts.len() == 0 {
                i = i + 1;
                continue;
            }
            let cmd = to_lowercase(parts[0].as_str());
            let effect = interpret(cmd.as_str(), &parts);
            match effect {
                Effect::Skip => {},
                Effect::Add(c) => {
                    let ghost old_cmds = script.commands@;
                    script.commands.push(c);
                    assert(command_views(script.commands@) =~= command_views(old_cmds).push(c@));
                },
                Effect::Progress(b) => {
                    script.show_progress = b;
                },
                Effect::ContinueOnError(b) => {
                    script.continue_on_error = b;
                },
                Effect::Unknown => {
                    let msg = concat2("未知命令: ", cmd.as_str());
                    proof {
                        assert(line_effect(ls[i as int]) == LineEffect::Unknown(cmd@));
                        assert(parse_lines(ls.take(i + 1)) == Err::<ScriptSpec, Seq<char>>(cmd@));
                        lemma_parse_lines_error_persists(ls, i + 1);
                    }
                    return Err(Error::InvalidArgument(msg));
                },
            }
            i = i + 1;
        }
        assert(ls.take(lines@.len() as int) =~= ls);
        Ok(script)
    }

    /// Sets whether progress is shown.
    pub fn show_progress(self, yes: bool) -> (s: Self)
        ensures
            s.spec() == (self.spec().0, yes, self.spec().2),
    {
        BatchScript { show_progress: yes, ..self }
    }

    /// Sets whether a failed command lets the run go on.
    pub fn continue_on_error(self, yes: bool) -> (s: Self)
        ensures
            s.spec() == (self.spec().0, self.spec().1, yes),
    {
        BatchScript { continue_on_error: yes, ..self }
    }

    /// The commands, in order.
    pub fn commands(&self) -> (c: &Vec<ScriptCommand>)
        ensures
            command_views(c@) == self.spec().0,
    {
        &self.commands
    }

    /// Whether progress is shown while running.
    pub fn shows_progress(&self) -> (b: bool)
        ensures
            b == self.spec().1,
    {
        self.show_progress
    }

    /// Whether a failed command lets the run go on.
    pub fn continues_on_error(&self) -> (b: bool)
        ensures
            b == self.spec().2,
    {
        self.continue_on_error
    }
}


// ---------------------------------------------------------------------------
// Running a script
// ---------------------------------------------------------------------------

/// The tally of a script run.
#[derive(Debug, Clone)]
pub struct BatchResult {
    pub total: usize,
    pub success: usize,
    pub failed: usize,
    pub errors: Vec<String>,
}

impl BatchResult {
    /// Nothing run yet.
    pub fn new() -> (r: Self)
        ensures
            r.total == 0,
            r.success == 0,
            r.failed == 0,
            r.errors@.len() == 0,
    {
        BatchResult { total: 0, success: 0, failed: 0, errors: Vec::new() }
    }

    /// Whether no command failed.
    pub fn is_success(&self) -> (b: bool)
        ensures
            b == (self.failed == 0),
    {
        self.failed == 0
    }

    /// Counts a command that succeeded.
    pub fn record_success(&mut self)
        requires
            old(self).success < usize::MAX,
        ensures
            final(self).success == old(self).success + 1,
            final(self).failed == old(self).failed,
            final(self).total == old(self).total,
            final(self).errors@ == old(self).errors@,
    {
        self.success = self.success + 1;
    }

    /// Counts a command that failed, with its message.
    pub fn record_failure(&mut self, message: String)
        requires
            old(self).failed < usize::MAX,
        ensures
            final(self).failed == old(self).failed + 1,
            final(self).success == old(self).success,
            final(self).total == old(self).total,
            final(self).errors@ == old(self).errors@.push(message),
    {
        self.failed = self.failed + 1;
        self.errors.push(message);
    }
}

/// Takes the outcome of the command just run: `None` when it succeeded,
/// else the message to keep. Returns whether the run stops here, which it
/// does on a failure unless the script continues on errors.
pub fn after_command(result: &mut BatchResult, failure: Option<String>, continue_on_error: bool) -> (stop: bool)
    requires
        old(result).success < usize::MAX,
        old(result).failed < usize::MAX,
    ensures
        stop == (failure is Some && !continue_on_error),
        failure is None ==> final(result).success == old(result).success + 1
            && final(result).failed == old(result).failed
            && final(result).errors@ == old(result).errors@,
        failure matches Some(m) ==> final(result).failed == old(result).failed + 1
            && final(result).success == old(result).success
            && final(result).errors@ == old(result).errors@.push(m),
        final(result).total == old(result).total,
{
    match failure {
        None => {
            result.record_success();
            false
        },
        Some(m) => {
            result.record_failure(m);
            !continue_on_error
        },
    }
}

/// Each command run is counted once: when the tally starts from nothing
/// and takes one outcome per command, the successes and failures add up
/// to the commands run, and the run is a success exactly when none failed.
pub proof fn law_batch_tally(before: BatchResult, after: BatchResult, failure: Option<String>, ran: nat)
    requires
        before.success + before.failed == ran,
        failure is None ==> after.success == before.success + 1 && after.failed == before.failed,
        failure is Some ==> after.failed == before.failed + 1 && after.success == before.success,
    ensures
        after.success + after.failed == ran + 1,
        (after.failed == 0) == (before.failed == 0 && failure is None),
{
}

/// A sample script that shows each command of the language.
pub fn example_script() -> (s: &'static str)
    ensures
        s@ == "# ExifTool 批处理脚本示例
# 这是一个注释

# 设置进度显示
progress on

# 读取文件
read photo1.jpg
read photo2.jpg Make Model

# 写入标签
write photo1.jpg Copyright \"© 2026 Photographer\"
write photo2.jpg Artist \"My Name\"

# 批量读取
batch photo1.jpg photo2.jpg photo3.jpg

# 打印消息
print \"批处理完成\"
"@,
{
    "# ExifTool 批处理脚本示例
# 这是一个注释

# 设置进度显示
progress on

# 读取文件
read photo1.jpg
read photo2.jpg Make Model

# 写入标签
write photo1.jpg Copyright \"© 2026 Photographer\"
write photo2.jpg Artist \"My Name\"

# 批量读取
batch photo1.jpg photo2.jpg photo3.jpg

# 打印消息
print \"批处理完成\"
"
}

} // verus!
