//! The text protocol of an ExifTool process in `-stay_open` mode: how a
//! command is framed, where its response ends, and what a response says.

use vstd::prelude::*;
use crate::args::{push_arg, push_owned, push_all};
use crate::text::{
    chars_of, contains_seq, nat_dec, owned, push_dec, str_contains, str_eq, trim,
    trim_chars, views,
};

verus! {

/// All strings of a sequence, one after the other.
pub open spec fn concat_all(v: Seq<Seq<char>>) -> Seq<char>
    decreases v.len(),
{
    if v.len() == 0 {
        Seq::<char>::empty()
    } else {
        concat_all(v.drop_last()) + v.last()
    }
}

/// Whether a line reports an error.
pub open spec fn is_error_line(l: Seq<char>) -> bool {
    contains_seq(l, "Error:"@)
}

/// The response to one command: the lines ExifTool printed before its
/// `{ready}` or `{readyNUM}` marker, each with its line ending.
#[derive(Debug, Clone)]
pub struct Response {
    lines: Vec<String>,
}

impl Response {
    /// The lines as character sequences.
    pub closed spec fn spec_lines(&self) -> Seq<Seq<char>> {
        views(self.lines@)
    }

    /// A response made of the given lines.
    pub fn new(lines: Vec<String>) -> (r: Self)
        ensures
            r.spec_lines() == views(lines@),
    {
        Response { lines }
    }

    /// The lines, in order.
    pub fn lines(&self) -> (l: &Vec<String>)
        ensures
            views(l@) == self.spec_lines(),
    {
        &self.lines
    }

    /// All lines joined into one text.
    pub fn text(&self) -> (s: String)
        ensures
            s@ == concat_all(self.spec_lines()),
    {
        let mut s = String::new();
        let mut i: usize = 0;
        assert(views(self.lines@).take(0) =~= Seq::<Seq<char>>::empty());
        while i < self.lines.len()
            invariant
                i <= self.lines@.len(),
                s@ == concat_all(views(self.lines@).take(i as int)),
            decreases self.lines@.len() - i,
        {
            s.append(self.lines[i].as_str());
            assert(views(self.lines@).take(i + 1).drop_last() =~= views(self.lines@).take(i as int));
            i = i + 1;
        }
        assert(views(self.lines@).take(self.lines@.len() as int) =~= views(self.lines@));
        s
    }

    /// Whether some line reports an error (`Error:`). Warnings are not
    /// errors.
    pub fn is_error(&self) -> (b: bool)
        ensures
            b == exists|i: int| 0 <= i < self.spec_lines().len() && is_error_line(#[trigger] self.spec_lines()[i]),
    {
        self.error_message().is_some()
    }

    /// The first line that reports an error.
    pub fn error_message(&self) -> (m: Option<String>)
        ensures
            m is None <==> forall|i: int| 0 <= i < self.spec_lines().len() ==> !is_error_line(#[trigger] self.spec_lines()[i]),
            m matches Some(s) ==> exists|i: int| 0 <= i < self.spec_lines().len() && is_error_line(#[trigger] self.spec_lines()[i])
                && s@ == self.spec_lines()[i]
                && forall|j: int| 0 <= j < i ==> !is_error_line(#[trigger] self.spec_lines()[j]),
    {
        let mut i: usize = 0;
        while i < self.lines.len()
            invariant
                i <= self.lines@.len(),
                forall|j: int| 0 <= j < i ==> !is_error_line(#[trigger] views(self.lines@)[j]),
            decreases self.lines@.len() - i,
        {
            assert(views(self.lines@)[i as int] == self.lines@[i as int]@);
            if str_contains(self.lines[i].as_str(), "Error:") {
                let ghost k = i as int;
                assert(views(self.lines@)[k] == self.lines@[k]@);
                assert(is_error_line(views(self.lines@)[k]));
                assert(self.spec_lines()[k] == views(self.lines@)[k]);
                return Some(self.lines[i].clone());
            }
            i = i + 1;
        }
        None
    }
}

/// Whether a text is a marker that ends a response: `{ready}`, or
/// `{readyNUM}` for a numbered command.
pub open spec fn is_ready_marker(t: Seq<char>) -> bool {
    t == "{ready}"@ || (t.len() > 7 && t.take(6) == "{ready"@ && t.last() == '}' && forall|i: int|
        6 <= i < t.len() - 1 ==> '0' <= #[trigger] t[i] && t[i] <= '9')
}

/// Whether a line printed by ExifTool, trimmed, is a marker that ends a
/// response.
pub fn is_ready_line(line: &str) -> (b: bool)
    ensures
        b == is_ready_marker(trim(line@)),
{
    let c = chars_of(line);
    let t = trim_chars(&c);
    let ts = crate::text::string_of_chars(&t);
    if str_eq(ts.as_str(), "{ready}") {
        return true;
    }
    let n = t.len();
    if n <= 7 || t[n - 1] != '}' {
        return false;
    }
    let head = chars_of("{ready");
    proof {
        reveal_strlit("{ready");
    }
    assert(head@.len() == 6);
    let mut same = true;
    let mut k: usize = 0;
    while k < 6
        invariant
            k <= 6,
            n == t@.len(),
            n > 7,
            head@.len() == 6,
            same == (forall|j: int| 0 <= j < k ==> t@[j] == head@[j]),
        decreases 6 - k,
    {
        if t[k] != head[k] {
            same = false;
        }
        k = k + 1;
    }
    assert(same == (t@.take(6) =~= head@));
    let mut digits = true;
    let mut i: usize = 6;
    while i < n - 1
        invariant
            6 <= i <= n - 1,
            n == t@.len(),
            digits == (forall|j: int| 6 <= j < i ==> '0' <= #[trigger] t@[j] && t@[j] <= '9'),
        decreases n - 1 - i,
    {
        if !('0' <= t[i] && t[i] <= '9') {
            digits = false;
        }
        i = i + 1;
    }
    same && digits
}

/// Collects the lines of one response.
#[derive(Debug)]
pub struct ResponseReader {
    lines: Vec<String>,
}

impl ResponseReader {
    /// The lines collected so far.
    pub closed spec fn collected(&self) -> Seq<Seq<char>> {
        views(self.lines@)
    }

    /// A reader that has collected nothing.
    pub fn new() -> (r: Self)
        ensures
            r.collected() == Seq::<Seq<char>>::empty(),
    {
        let r = ResponseReader { lines: Vec::new() };
        assert(views(r.lines@) =~= Seq::<Seq<char>>::empty());
        r
    }

    /// Takes one line read from the process. Returns whether the response
    /// is complete; the marker itself is not kept.
    pub fn feed(&mut self, line: String) -> (done: bool)
        ensures
            done == is_ready_marker(trim(line@)),
            done ==> final(self).collected() == old(self).collected(),
            !done ==> final(self).collected() == old(self).collected().push(line@),
    {
        if is_ready_line(line.as_str()) {
            true
        } else {
            push_owned(&mut self.lines, line);
            false
        }
    }

    /// The response made of the collected lines.
    pub fn finish(self) -> (r: Response)
        ensures
            r.spec_lines() == self.collected(),
    {
        Response::new(self.lines)
    }
}

/// What a reader holds after taking the lines `fed` one by one, starting
/// from `collected`: each line but a marker that ends a response is kept.
pub open spec fn reader_after(collected: Seq<Seq<char>>, fed: Seq<Seq<char>>) -> Seq<Seq<char>>
    decreases fed.len(),
{
    if fed.len() == 0 {
        collected
    } else if is_ready_marker(trim(fed.last())) {
        reader_after(collected, fed.drop_last())
    } else {
        reader_after(collected, fed.drop_last()).push(fed.last())
    }
}

/// A response holds exactly the lines ExifTool printed before its marker:
/// a reader that takes lines none of which is the marker keeps all of
/// them, in order.
pub proof fn law_reader_keeps_lines(fed: Seq<Seq<char>>)
    requires
        forall|i: int| 0 <= i < fed.len() ==> !is_ready_marker(trim(#[trigger] fed[i])),
    ensures
        reader_after(Seq::<Seq<char>>::empty(), fed) == fed,
    decreases fed.len(),
{
    if fed.len() > 0 {
        let front = fed.drop_last();
        assert forall|i: int| 0 <= i < front.len() implies !is_ready_marker(trim(#[trigger] front[i])) by {
            assert(front[i] == fed[i]);
        }
        law_reader_keeps_lines(front);
        assert(!is_ready_marker(trim(fed[fed.len() - 1])));
        assert(front.push(fed.last()) =~= fed);
    }
}

/// The number that tags one command of a multi-command request, so that
/// its response can be told apart (`-executeNUM`).
#[derive(Debug, Clone, Copy, PartialEq, Eq)]
pub struct CommandId(u32);

impl CommandId {
    /// The identifier with this number.
    pub fn new(value: u32) -> (id: Self)
        ensures
            id.spec_value() == value,
    {
        CommandId(value)
    }

    /// The number.
    pub closed spec fn spec_value(&self) -> u32 {
        self.0
    }

    /// The number.
    pub fn value(&self) -> (v: u32)
        ensures
            v == self.spec_value(),
    {
        self.0
    }
}

/// The marker that ends a response: `{ready}`, or `{readyNUM}` for a
/// numbered command.
pub open spec fn ready_marker(id: Option<u32>) -> Seq<char> {
    match id {
        Some(n) => "{ready"@ + nat_dec(n as nat) + "}"@,
        None => "{ready}"@,
    }
}

/// The line that ends a command: `-execute`, or `-executeNUM`.
pub open spec fn execute_line(id: Option<u32>) -> Seq<char> {
    match id {
        Some(n) => "-execute"@ + nat_dec(n as nat),
        None => "-execute"@,
    }
}

/// One command to send: its arguments and an optional number.
#[derive(Debug, Clone)]
pub struct CommandRequest {
    pub id: Option<CommandId>,
    pub args: Vec<String>,
}

impl CommandRequest {
    /// A command with these arguments.
    pub fn new(id: Option<CommandId>, args: Vec<String>) -> (c: Self)
        ensures
            c.id == id && c.args == args,
    {
        CommandRequest { id, args }
    }

    /// The number of the command, if it has one.
    pub open spec fn number(&self) -> Option<u32> {
        match self.id {
            Some(i) => Some(i.spec_value()),
            None => None,
        }
    }

    /// The lines to write to the process: each argument, then the execute
    /// line.
    pub fn lines(&self) -> (r: Vec<String>)
        ensures
            views(r@) == views(self.args@).push(execute_line(self.number())),
    {
        let mut r: Vec<String> = Vec::new();
        assert(views(r@) =~= Seq::<Seq<char>>::empty());
        push_all(&mut r, &self.args);
        assert(views(r@) =~= views(self.args@));
        match self.id {
            Some(i) => {
                let mut s = owned("-execute");
                push_dec(&mut s, i.value() as u64);
                push_owned(&mut r, s);
            },
            None => push_arg(&mut r, "-execute"),
        }
        r
    }

    /// The marker that ends this command's response.
    pub fn ready_marker(&self) -> (s: String)
        ensures
            s@ == ready_marker(self.number()),
    {
        match self.id {
            Some(i) => {
                let mut s = owned("{ready");
                push_dec(&mut s, i.value() as u64);
                let ghost before = s@;
                s.append("}");
                s
            },
            None => owned("{ready}"),
        }
    }
}


/// How to start one ExifTool process.
#[derive(Debug, Clone)]
pub struct ExifToolBuilder {
    executable: Option<String>,
}

impl ExifToolBuilder {
    /// The executable the builder runs, if one was given.
    pub closed spec fn spec_executable(&self) -> Option<Seq<char>> {
        match self.executable {
            Some(e) => Some(e@),
            None => None,
        }
    }

    /// Runs `exiftool` from the search path.
    pub fn new() -> (b: Self)
        ensures
            b.spec_executable() is None,
    {
        ExifToolBuilder { executable: None }
    }

    /// Runs a given executable.
    pub fn executable(self, path: &str) -> (b: Self)
        ensures
            b.spec_executable() == Some(path@),
    {
        ExifToolBuilder { executable: Some(owned(path)) }
    }

    /// The executable to run: the one given, else `exiftool`.
    pub fn executable_path(&self) -> (s: String)
        ensures
            s@ == (match self.spec_executable() {
                Some(e) => e,
                None => "exiftool"@,
            }),
    {
        match &self.executable {
            Some(e) => e.clone(),
            None => owned("exiftool"),
        }
    }
}

impl Default for ExifToolBuilder {
    fn default() -> (b: Self)
        ensures
            b.spec_executable() is None,
    {
        ExifToolBuilder::new()
    }
}

/// The arguments that start ExifTool in `-stay_open` mode, reading
/// arguments from its standard input: `-stay_open True -@ -`.
pub fn launch_args() -> (r: Vec<String>)
    ensures
        views(r@) == seq!["-stay_open"@, "True"@, "-@"@, "-"@],
{
    let mut r: Vec<String> = Vec::new();
    push_arg(&mut r, "-stay_open");
    push_arg(&mut r, "True");
    push_arg(&mut r, "-@");
    push_arg(&mut r, "-");
    r
}

/// The lines that ask ExifTool for its version, which also checks that a
/// new process answers.
pub fn version_request() -> (r: Vec<String>)
    ensures
        views(r@) == seq!["-ver"@, "-execute"@],
{
    let mut r: Vec<String> = Vec::new();
    push_arg(&mut r, "-ver");
    push_arg(&mut r, "-execute");
    r
}

/// The lines that end a `-stay_open` process.
pub fn close_lines() -> (r: Vec<String>)
    ensures
        views(r@) == seq!["-stay_open"@, "False"@, "-execute"@],
{
    let mut r: Vec<String> = Vec::new();
    push_arg(&mut r, "-stay_open");
    push_arg(&mut r, "False");
    push_arg(&mut r, "-execute");
    r
}

/// The lines that send one command: its arguments, then `-execute`.
pub fn execute_lines(args: &Vec<String>) -> (r: Vec<String>)
    ensures
        views(r@) == views(args@).push("-execute"@),
{
    let mut r: Vec<String> = Vec::new();
    push_all(&mut r, args);
    assert(views(r@) =~= views(args@));
    push_arg(&mut r, "-execute");
    r
}

} // verus!
