//! Character-level helpers shared by the argument builders and parsers.
//!
//! Strings are reasoned about through their views, `Seq<char>`.

use vstd::prelude::*;

verus! {

broadcast use vstd::string::group_string_axioms;

/// The views of a sequence of owned strings.
pub open spec fn views(v: Seq<String>) -> Seq<Seq<char>> {
    v.map_values(|s: String| s@)
}

/// Copies the characters of a string slice into a vector.
pub fn chars_of(s: &str) -> (v: Vec<char>)
    ensures
        v@ == s@,
{
    let mut v: Vec<char> = Vec::new();
    for c in it: s.chars()
        invariant
            it.seq() == s@,
            v@ == it.seq().take(it.index() as int),
    {
        v.push(c);
    }
    v
}

/// Appends one character to a string (`String::push`).
#[verifier::external_body]
pub(crate) fn push_char(s: &mut String, c: char)
    ensures
        final(s)@ == old(s)@.push(c),
{
    s.push(c);
}

/// An owned copy of a string slice.
pub fn owned(s: &str) -> (r: String)
    ensures
        r@ == s@,
{
    s.to_owned()
}

/// The concatenation of two string slices.
pub fn concat2(a: &str, b: &str) -> (r: String)
    ensures
        r@ == a@ + b@,
{
    let mut r = a.to_owned();
    r.append(b);
    r
}

/// The concatenation of three string slices.
pub fn concat3(a: &str, b: &str, c: &str) -> (r: String)
    ensures
        r@ == a@ + b@ + c@,
{
    let mut r = a.to_owned();
    r.append(b);
    r.append(c);
    r
}

/// Builds a string from a sequence of characters.
pub fn string_of_chars(v: &[char]) -> (r: String)
    ensures
        r@ == v@,
{
    let mut r = String::new();
    let mut i: usize = 0;
    while i < v.len()
        invariant
            i <= v@.len(),
            r@ == v@.take(i as int),
        decreases v@.len() - i,
    {
        push_char(&mut r, v[i]);
        i = i + 1;
        assert(v@.take(i as int) == v@.take((i - 1) as int).push(v@[i - 1]));
    }
    assert(v@.take(v@.len() as int) == v@);
    r
}

/// Whether two string slices hold the same characters.
pub fn str_eq(a: &str, b: &str) -> (r: bool)
    ensures
        r == (a@ == b@),
{
    let x = chars_of(a);
    let y = chars_of(b);
    chars_eq(&x, &y)
}

/// Whether two character slices are equal.
pub fn chars_eq(x: &[char], y: &[char]) -> (r: bool)
    ensures
        r == (x@ == y@),
{
    if x.len() != y.len() {
        return false;
    }
    let mut i: usize = 0;
    while i < x.len()
        invariant
            x@.len() == y@.len(),
            i <= x@.len(),
            forall|j: int| 0 <= j < i ==> x@[j] == y@[j],
        decreases x@.len() - i,
    {
        if x[i] != y[i] {
            return false;
        }
        i = i + 1;
    }
    assert(x@ =~= y@);
    true
}

// ---------------------------------------------------------------------------
// Whitespace
// ---------------------------------------------------------------------------

/// The characters with the Unicode `White_Space` property, which is what
/// `char::is_whitespace` tests.
pub open spec fn is_ws(c: char) -> bool {
    ||| ('\u{9}' <= c && c <= '\u{d}')
    ||| c == ' '
    ||| c == '\u{85}'
    ||| c == '\u{a0}'
    ||| c == '\u{1680}'
    ||| ('\u{2000}' <= c && c <= '\u{200a}')
    ||| c == '\u{2028}'
    ||| c == '\u{2029}'
    ||| c == '\u{202f}'
    ||| c == '\u{205f}'
    ||| c == '\u{3000}'
}

/// Whether a character is whitespace in the Unicode sense.
pub fn is_whitespace(c: char) -> (r: bool)
    ensures
        r == is_ws(c),
{
    ('\u{9}' <= c && c <= '\u{d}') || c == ' ' || c == '\u{85}' || c == '\u{a0}' || c
        == '\u{1680}' || ('\u{2000}' <= c && c <= '\u{200a}') || c == '\u{2028}' || c
        == '\u{2029}' || c == '\u{202f}' || c == '\u{205f}' || c == '\u{3000}'
}

// ---------------------------------------------------------------------------
// Decimal numbers
// ---------------------------------------------------------------------------

/// The character of a decimal digit.
pub open spec fn digit_char(d: int) -> char {
    if d == 0 {
        '0'
    } else if d == 1 {
        '1'
    } else if d == 2 {
        '2'
    } else if d == 3 {
        '3'
    } else if d == 4 {
        '4'
    } else if d == 5 {
        '5'
    } else if d == 6 {
        '6'
    } else if d == 7 {
        '7'
    } else if d == 8 {
        '8'
    } else {
        '9'
    }
}

/// The decimal notation of a natural number, without leading zeros.
pub open spec fn nat_dec(n: nat) -> Seq<char>
    decreases n,
{
    if n < 10 {
        seq![digit_char(n as int)]
    } else {
        nat_dec(n / 10).push(digit_char((n % 10) as int))
    }
}

/// The decimal notation of an integer, with a leading `-` when negative.
pub open spec fn int_dec(i: int) -> Seq<char> {
    if i < 0 {
        seq!['-'] + nat_dec((-i) as nat)
    } else {
        nat_dec(i as nat)
    }
}

/// A number written with at least two digits (`{:02}`).
pub open spec fn pad2(n: nat) -> Seq<char> {
    if n < 10 {
        seq!['0'] + nat_dec(n)
    } else {
        nat_dec(n)
    }
}

fn digit(d: u64) -> (c: char)
    requires
        d < 10,
    ensures
        c == digit_char(d as int),
{
    if d == 0 {
        '0'
    } else if d == 1 {
        '1'
    } else if d == 2 {
        '2'
    } else if d == 3 {
        '3'
    } else if d == 4 {
        '4'
    } else if d == 5 {
        '5'
    } else if d == 6 {
        '6'
    } else if d == 7 {
        '7'
    } else if d == 8 {
        '8'
    } else {
        '9'
    }
}

/// Appends the decimal notation of `n`.
pub fn push_dec(s: &mut String, n: u64)
    ensures
        final(s)@ == old(s)@ + nat_dec(n as nat),
    decreases n,
{
    if n >= 10 {
        push_dec(s, n / 10);
    }
    push_char(s, digit(n % 10));
    if n >= 10 {
        assert(nat_dec(n as nat) == nat_dec((n / 10) as nat).push(digit_char((n % 10) as int)));
    }
}

/// The decimal notation of an unsigned number.
pub fn u64_dec(n: u64) -> (r: String)
    ensures
        r@ == nat_dec(n as nat),
{
    let mut s = String::new();
    push_dec(&mut s, n);
    s
}

/// The decimal notation of a signed number.
pub fn i64_dec(n: i64) -> (r: String)
    ensures
        r@ == int_dec(n as int),
{
    let mut s = String::new();
    if n < 0 {
        push_char(&mut s, '-');
        let m: u64 = ((-(n + 1)) as u64) + 1;
        push_dec(&mut s, m);
    } else {
        push_dec(&mut s, n as u64);
    }
    s
}

/// Appends a number with at least two digits.
pub fn push_pad2(s: &mut String, n: u64)
    ensures
        final(s)@ == old(s)@ + pad2(n as nat),
{
    if n < 10 {
        push_char(s, '0');
    }
    push_dec(s, n);
}


// ---------------------------------------------------------------------------
// Trimming, lines and words
// ---------------------------------------------------------------------------

/// Removes leading whitespace.
pub open spec fn trim_start(s: Seq<char>) -> Seq<char>
    decreases s.len(),
{
    if s.len() > 0 && is_ws(s[0]) {
        trim_start(s.drop_first())
    } else {
        s
    }
}

/// Removes trailing whitespace.
pub open spec fn trim_end(s: Seq<char>) -> Seq<char>
    decreases s.len(),
{
    if s.len() > 0 && is_ws(s.last()) {
        trim_end(s.drop_last())
    } else {
        s
    }
}

/// Removes whitespace at both ends (`str::trim`).
pub open spec fn trim(s: Seq<char>) -> Seq<char> {
    trim_end(trim_start(s))
}

proof fn lemma_trim_start_skip(s: Seq<char>, i: int)
    requires
        0 <= i < s.len(),
        is_ws(s[i]),
    ensures
        trim_start(s.subrange(i, s.len() as int)) == trim_start(s.subrange(i + 1, s.len() as int)),
{
    assert(s.subrange(i, s.len() as int).drop_first() =~= s.subrange(i + 1, s.len() as int));
}

proof fn lemma_trim_end_skip(s: Seq<char>, j: int)
    requires
        0 < j <= s.len(),
        is_ws(s[j - 1]),
    ensures
        trim_end(s.subrange(0, j)) == trim_end(s.subrange(0, j - 1)),
{
    assert(s.subrange(0, j).drop_last() =~= s.subrange(0, j - 1));
}

/// The characters of `v` with surrounding whitespace removed.
pub fn trim_chars(v: &[char]) -> (r: Vec<char>)
    ensures
        r@ == trim(v@),
{
    let n = v.len();
    let mut i: usize = 0;
    assert(v@.subrange(0, n as int) =~= v@);
    while i < n && is_whitespace(v[i])
        invariant
            i <= n == v@.len(),
            trim_start(v@) == trim_start(v@.subrange(i as int, n as int)),
        decreases n - i,
    {
        proof {
            lemma_trim_start_skip(v@, i as int);
        }
        i = i + 1;
    }
    let ghost t = v@.subrange(i as int, n as int);
    assert(trim_start(t) == t);
    let mut j: usize = n;
    assert(t.subrange(0, (j - i) as int) =~= t);
    while j > i && is_whitespace(v[j - 1])
        invariant
            i <= j <= n == v@.len(),
            t == v@.subrange(i as int, n as int),
            trim_end(t) == trim_end(t.subrange(0, (j - i) as int)),
        decreases j,
    {
        proof {
            assert(t[(j - i) - 1] == v@[j - 1]);
            lemma_trim_end_skip(t, (j - i) as int);
        }
        j = j - 1;
    }
    let ghost u = t.subrange(0, (j - i) as int);
    assert(trim_end(u) == u);
    let mut r: Vec<char> = Vec::new();
    let mut k: usize = i;
    while k < j
        invariant
            i <= k <= j <= n == v@.len(),
            r@ == v@.subrange(i as int, k as int),
        decreases j - k,
    {
        r.push(v[k]);
        k = k + 1;
        assert(r@ =~= v@.subrange(i as int, k as int));
    }
    assert(u =~= v@.subrange(i as int, j as int));
    r
}

/// Splits a text at every `\n`; there is always at least one piece.
pub open spec fn split_newlines(s: Seq<char>) -> Seq<Seq<char>>
    decreases s.len(),
{
    if s.len() == 0 {
        seq![Seq::<char>::empty()]
    } else {
        let p = split_newlines(s.drop_last());
        if s.last() == '\n' {
            p.push(Seq::<char>::empty())
        } else {
            p.update(p.len() - 1, p.last().push(s.last()))
        }
    }
}

proof fn lemma_split_newlines_nonempty(s: Seq<char>)
    ensures
        split_newlines(s).len() >= 1,
    decreases s.len(),
{
    if s.len() > 0 {
        lemma_split_newlines_nonempty(s.drop_last());
    }
}

/// The lines of a text: the pieces between line feeds, without a final
/// empty piece. Up to the `\r` that ends a CRLF line, which the callers
/// trim away, these are the lines of `str::lines`.
pub open spec fn line_pieces(s: Seq<char>) -> Seq<Seq<char>> {
    let p = split_newlines(s);
    if p.last().len() == 0 {
        p.drop_last()
    } else {
        p
    }
}

/// Splits a character sequence into its lines.
pub fn lines_of(v: &[char]) -> (r: Vec<Vec<char>>)
    ensures
        r@.map_values(|l: Vec<char>| l@) == line_pieces(v@),
{
    let mut pieces: Vec<Vec<char>> = Vec::new();
    let mut cur: Vec<char> = Vec::new();
    let mut i: usize = 0;
    assert(v@.take(0) =~= Seq::<char>::empty());
    while i < v.len()
        invariant
            i <= v@.len(),
            pieces@.map_values(|l: Vec<char>| l@).push(cur@) == split_newlines(v@.take(i as int)),
        decreases v@.len() - i,
    {
        let c = v[i];
        let ghost before = v@.take(i as int);
        assert(v@.take(i + 1).drop_last() =~= before);
        if c == '\n' {
            let done = cur;
            pieces.push(done);
            cur = Vec::new();
            assert(pieces@.map_values(|l: Vec<char>| l@).push(cur@) =~= split_newlines(
                before,
            ).push(Seq::<char>::empty()));
        } else {
            let ghost p = split_newlines(before);
            cur.push(c);
            assert(pieces@.map_values(|l: Vec<char>| l@).push(cur@) =~= p.update(
                p.len() - 1,
                p.last().push(c),
            ));
        }
        i = i + 1;
    }
    assert(v@.take(v@.len() as int) =~= v@);
    let ghost whole = pieces@.map_values(|l: Vec<char>| l@).push(cur@);
    if cur.len() > 0 {
        pieces.push(cur);
        assert(pieces@.map_values(|l: Vec<char>| l@) =~= whole);
    } else {
        assert(pieces@.map_values(|l: Vec<char>| l@) =~= whole.drop_last());
    }
    pieces
}

// ---------------------------------------------------------------------------
// Searching
// ---------------------------------------------------------------------------

/// Whether `t` occurs in `s` starting at position `i`.
pub open spec fn occurs_at(s: Seq<char>, t: Seq<char>, i: int) -> bool {
    0 <= i && i + t.len() <= s.len() && s.subrange(i, i + t.len()) == t
}

/// Whether `t` occurs anywhere in `s` (`str::contains`).
pub open spec fn contains_seq(s: Seq<char>, t: Seq<char>) -> bool {
    exists|i: int| occurs_at(s, t, i)
}

/// The position of the first occurrence of `t` in `s` (`str::find`,
/// counted in characters).
pub open spec fn find_seq(s: Seq<char>, t: Seq<char>) -> Option<int> {
    if contains_seq(s, t) {
        Some(choose|i: int| occurs_at(s, t, i) && forall|j: int| 0 <= j < i ==> !occurs_at(s, t, j))
    } else {
        None
    }
}

fn matches_at(s: &[char], t: &[char], i: usize) -> (r: bool)
    requires
        i + t@.len() <= s@.len(),
    ensures
        r == occurs_at(s@, t@, i as int),
{
    let n = s.len();
    let mut k: usize = 0;
    while k < t.len()
        invariant
            n == s@.len(),
            i + t@.len() <= s@.len(),
            k <= t@.len(),
            forall|m: int| 0 <= m < k ==> s@[i + m] == t@[m],
        decreases t@.len() - k,
    {
        if s[i + k] != t[k] {
            assert(s@.subrange(i as int, i + t@.len())[k as int] != t@[k as int]);
            return false;
        }
        k = k + 1;
    }
    assert(s@.subrange(i as int, i + t@.len()) =~= t@);
    true
}

/// The first position at which `t` occurs in `s`.
pub fn find_chars(s: &[char], t: &[char]) -> (r: Option<usize>)
    ensures
        r matches Some(i) ==> find_seq(s@, t@) == Some(i as int) && i + t@.len() <= s@.len(),
        r is None ==> find_seq(s@, t@) is None,
{
    if t.len() > s.len() {
        assert(!contains_seq(s@, t@));
        return None;
    }
    let limit: usize = s.len() - t.len();
    let mut i: usize = 0;
    loop
        invariant_except_break
            t@.len() <= s@.len(),
            limit == s@.len() - t@.len(),
            i <= limit,
            forall|j: int| 0 <= j < i ==> !occurs_at(s@, t@, j),
        ensures
            i == limit,
            limit == s@.len() - t@.len(),
            forall|j: int| 0 <= j <= i ==> !occurs_at(s@, t@, j),
        decreases limit - i,
    {
        if matches_at(s, t, i) {
            proof {
                assert(contains_seq(s@, t@));
                let k = find_seq(s@, t@)->0;
                assert(occurs_at(s@, t@, k) && forall|j: int| 0 <= j < k ==> !occurs_at(s@, t@, j));
                if k < i {
                } else if k > i {
                    assert(!occurs_at(s@, t@, i as int));
                }
            }
            return Some(i);
        }
        if i == limit {
            break;
        }
        i = i + 1;
    }
    assert forall|j: int| !occurs_at(s@, t@, j) by {
        if 0 <= j && j + t@.len() <= s@.len() {
            assert(j <= i);
        }
    }
    None
}

/// Whether `t` occurs in `s`.
pub fn contains_chars(s: &[char], t: &[char]) -> (r: bool)
    ensures
        r == contains_seq(s@, t@),
{
    find_chars(s, t).is_some()
}

/// Whether the string `s` contains the text `t`.
pub fn str_contains(s: &str, t: &str) -> (r: bool)
    ensures
        r == contains_seq(s@, t@),
{
    let a = chars_of(s);
    let b = chars_of(t);
    contains_chars(&a, &b)
}

// ---------------------------------------------------------------------------
// Case mapping
// ---------------------------------------------------------------------------

/// What `str::to_lowercase` returns for a text: Unicode's full lowercase
/// mapping, one that a few lines cannot state.
pub uninterp spec fn lowercase(s: Seq<char>) -> Seq<char>;

/// Whether every character is ASCII.
pub open spec fn all_ascii(s: Seq<char>) -> bool {
    forall|i: int| 0 <= i < s.len() ==> (#[trigger] s[i] as u32) < 128
}

/// Each ASCII capital letter replaced by its small letter.
pub open spec fn ascii_lower(s: Seq<char>) -> Seq<char> {
    s.map_values(|c: char| if 'A' <= c && c <= 'Z' { ((c as u32) + 32) as char } else { c })
}

/// Each ASCII small letter replaced by its capital letter.
pub open spec fn ascii_upper(s: Seq<char>) -> Seq<char> {
    s.map_values(|c: char| if 'a' <= c && c <= 'z' { ((c as u32) - 32) as char } else { c })
}

/// `str::to_lowercase`. Claimed: the result is the lowercase mapping of
/// the argument, a function of the argument's characters alone, and on
/// ASCII text it maps only the letters `A` to `Z`, to `a` to `z` (ASCII
/// characters have no other lowercase mapping in Unicode).
#[verifier::external_body]
pub(crate) fn to_lowercase(s: &str) -> (r: String)
    ensures
        r@ == lowercase(s@),
        all_ascii(s@) ==> r@ == ascii_lower(s@),
{
    s.to_lowercase()
}


// ---------------------------------------------------------------------------
// Words
// ---------------------------------------------------------------------------

/// The words read so far and the word being read.
pub type WordState = (Seq<Seq<char>>, Seq<char>);

/// One character's effect on word splitting: whitespace ends the current
/// word, anything else extends it.
pub open spec fn word_step(st: WordState, c: char) -> WordState {
    if is_ws(c) {
        if st.1.len() > 0 {
            (st.0.push(st.1), Seq::<char>::empty())
        } else {
            st
        }
    } else {
        (st.0, st.1.push(c))
    }
}

/// The word state after reading `s`.
pub open spec fn word_run(s: Seq<char>) -> WordState
    decreases s.len(),
{
    if s.len() == 0 {
        (Seq::<Seq<char>>::empty(), Seq::<char>::empty())
    } else {
        word_step(word_run(s.drop_last()), s.last())
    }
}

/// The words of a text (`str::split_whitespace`): its maximal stretches of
/// characters that are not whitespace, in order.
pub open spec fn words_of(s: Seq<char>) -> Seq<Seq<char>> {
    let st = word_run(s);
    if st.1.len() > 0 {
        st.0.push(st.1)
    } else {
        st.0
    }
}

/// Whether a text has no whitespace.
pub open spec fn no_ws(w: Seq<char>) -> bool {
    forall|i: int| 0 <= i < w.len() ==> !is_ws(#[trigger] w[i])
}

/// Whether every word is non-empty and has no whitespace.
pub open spec fn proper_words(ws: Seq<Seq<char>>) -> bool {
    forall|k: int| 0 <= k < ws.len() ==> (#[trigger] ws[k]).len() > 0 && no_ws(ws[k])
}

proof fn lemma_word_run_proper(s: Seq<char>)
    ensures
        proper_words(word_run(s).0),
        no_ws(word_run(s).1),
    decreases s.len(),
{
    if s.len() > 0 {
        lemma_word_run_proper(s.drop_last());
        let st = word_run(s.drop_last());
        let c = s.last();
        if is_ws(c) {
            if st.1.len() > 0 {
                assert forall|k: int| 0 <= k < st.0.push(st.1).len() implies (#[trigger] st.0.push(
                    st.1,
                )[k]).len() > 0 && no_ws(st.0.push(st.1)[k]) by {
                    if k < st.0.len() {
                        assert(st.0.push(st.1)[k] == st.0[k]);
                    }
                }
            }
        } else {
            assert forall|i: int| 0 <= i < st.1.push(c).len() implies !is_ws(#[trigger] st.1.push(c)[i]) by {
                if i < st.1.len() {
                    assert(st.1.push(c)[i] == st.1[i]);
                }
            }
        }
    }
}

/// Every word of a text is non-empty and free of whitespace.
pub proof fn law_words_proper(s: Seq<char>)
    ensures
        proper_words(words_of(s)),
{
    lemma_word_run_proper(s);
    let st = word_run(s);
    if st.1.len() > 0 {
        assert forall|k: int| 0 <= k < st.0.push(st.1).len() implies (#[trigger] st.0.push(st.1)[k]).len()
            > 0 && no_ws(st.0.push(st.1)[k]) by {
            if k < st.0.len() {
                assert(st.0.push(st.1)[k] == st.0[k]);
            }
        }
    }
}

/// Splits a text into its words.
pub fn split_words(s: &str) -> (r: Vec<String>)
    ensures
        views(r@) == words_of(s@),
{
    let v = chars_of(s);
    let mut words: Vec<String> = Vec::new();
    let mut current: Vec<char> = Vec::new();
    let mut i: usize = 0;
    assert(v@.take(0) =~= Seq::<char>::empty());
    while i < v.len()
        invariant
            i <= v@.len(),
            word_run(v@.take(i as int)) == (views(words@), current@),
        decreases v@.len() - i,
    {
        let ch = v[i];
        assert(v@.take(i + 1).drop_last() =~= v@.take(i as int));
        assert(v@.take(i + 1).last() == ch);
        if is_whitespace(ch) {
            if current.len() > 0 {
                let w = string_of_chars(&current);
                words.push(w);
                current = Vec::new();
                assert(views(words@) =~= views(words@.drop_last()).push(w@));
            }
        } else {
            current.push(ch);
        }
        i = i + 1;
    }
    assert(v@.take(v@.len() as int) =~= v@);
    if current.len() > 0 {
        let w = string_of_chars(&current);
        words.push(w);
        assert(views(words@) =~= views(words@.drop_last()).push(w@));
    }
    words
}

/// What `str::to_uppercase` returns for a text: Unicode's full uppercase
/// mapping, one that a few lines cannot state.
pub uninterp spec fn uppercase(s: Seq<char>) -> Seq<char>;

/// `str::to_uppercase`. Claimed: the result is the uppercase mapping of
/// the argument, a function of the argument's characters alone, and on
/// ASCII text it maps only the letters `a` to `z`, to `A` to `Z` (ASCII
/// characters have no other uppercase mapping in Unicode).
#[verifier::external_body]
pub(crate) fn to_uppercase(s: &str) -> (r: String)
    ensures
        r@ == uppercase(s@),
        all_ascii(s@) ==> r@ == ascii_upper(s@),
{
    s.to_uppercase()
}

} // verus!
