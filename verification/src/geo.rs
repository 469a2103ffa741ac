//! Reading coordinates written as degrees, minutes and seconds.
//!
//! ExifTool prints coordinates such as `54 deg 59' 22.80" N`. This module
//! takes such a text apart into its direction and its numbers, as text;
//! the numbers themselves are decimal fractions, read by the caller.

use vstd::prelude::*;
use crate::text::{all_ascii, ascii_upper, chars_of, string_of_chars, split_words, to_uppercase, trim, trim_chars, uppercase, words_of};

verus! {

/// The direction that a coordinate's last letter gives, read from its
/// uppercase form: north and east count positive, south and west
/// negative.
pub open spec fn direction_of(upper: Seq<char>) -> Option<bool> {
    if upper.len() > 0 && (upper.last() == 'N' || upper.last() == 'E') {
        Some(true)
    } else if upper.len() > 0 && (upper.last() == 'S' || upper.last() == 'W') {
        Some(false)
    } else {
        None
    }
}

/// `deg` replaced by a space, left to right (`str::replace`).
pub open spec fn replace_deg(s: Seq<char>) -> Seq<char>
    decreases s.len(),
{
    if s.len() == 0 {
        Seq::<char>::empty()
    } else if s.len() >= 3 && s[0] == 'd' && s[1] == 'e' && s[2] == 'g' {
        seq![' '] + replace_deg(s.skip(3))
    } else {
        seq![s[0]] + replace_deg(s.skip(1))
    }
}

/// Whether a character marks degrees, minutes or seconds: `°`, `'`, `"`,
/// `′` or `″`.
pub open spec fn is_dms_mark(c: char) -> bool {
    let n = c as u32;
    n == 0xB0 || n == 0x27 || n == 0x22 || n == 0x2032 || n == 0x2033
}

/// Each mark replaced by a space.
pub open spec fn blank_marks(s: Seq<char>) -> Seq<char> {
    s.map_values(|c: char| if is_dms_mark(c) { ' ' } else { c })
}

/// The text without its direction letter, trimmed.
pub open spec fn dms_body(s: Seq<char>, upper: Seq<char>) -> Seq<char> {
    if direction_of(upper) is Some {
        trim(s.drop_last())
    } else {
        trim(s)
    }
}

/// The numbers of a coordinate text, as words.
pub open spec fn dms_words(s: Seq<char>, upper: Seq<char>) -> Seq<Seq<char>> {
    words_of(blank_marks(replace_deg(dms_body(s, upper))))
}

/// Whether dropping the direction letter would cut a character apart: the
/// uppercase form ends in a direction letter but the text's own last
/// character takes more than one byte.
pub open spec fn cuts_inside_char(s: Seq<char>, upper: Seq<char>) -> bool {
    direction_of(upper) is Some && s.len() > 0 && (s.last() as u32) >= 128
}

/// The direction and the numbers of a coordinate text.
#[derive(Debug, Clone)]
pub struct DmsText {
    pub direction: Option<bool>,
    pub parts: Vec<String>,
}

/// The parts of a coordinate text: `None` when there are no numbers or
/// more than three (degrees, minutes, seconds).
pub open spec fn dms_parts_spec(s: Seq<char>, upper: Seq<char>) -> Option<(Option<bool>, Seq<Seq<char>>)> {
    if s.len() == 0 || dms_words(s, upper).len() == 0 || dms_words(s, upper).len() > 3 {
        None
    } else {
        Some((direction_of(upper), dms_words(s, upper)))
    }
}

fn replace_deg_chars(v: &Vec<char>) -> (r: Vec<char>)
    ensures
        r@ == replace_deg(v@),
{
    let n = v.len();
    let mut out: Vec<char> = Vec::new();
    let mut i: usize = 0;
    assert(v@.skip(0) =~= v@);
    while i < n
        invariant
            n == v@.len(),
            i <= n,
            out@ + replace_deg(v@.skip(i as int)) == replace_deg(v@),
        decreases n - i,
    {
        let ghost rest = v@.skip(i as int);
        if n - i >= 3 && v[i] == 'd' && v[i + 1] == 'e' && v[i + 2] == 'g' {
            assert(rest[0] == 'd' && rest[1] == 'e' && rest[2] == 'g');
            assert(rest.skip(3) =~= v@.skip(i + 3));
            out.push(' ');
            assert(out@ + replace_deg(v@.skip(i + 3)) =~= out@.drop_last() + replace_deg(rest));
            i = i + 3;
        } else {
            assert(rest[0] == v@[i as int]);
            assert(rest.skip(1) =~= v@.skip(i + 1));
            out.push(v[i]);
            assert(out@ + replace_deg(v@.skip(i + 1)) =~= out@.drop_last() + replace_deg(rest));
            i = i + 1;
        }
    }
    assert(v@.skip(n as int) =~= Seq::<char>::empty());
    assert(out@ + Seq::<char>::empty() =~= out@);
    out
}

fn blank_marks_chars(v: &Vec<char>) -> (r: Vec<char>)
    ensures
        r@ == blank_marks(v@),
{
    let mut out: Vec<char> = Vec::new();
    let mut i: usize = 0;
    while i < v.len()
        invariant
            i <= v@.len(),
            out@ == blank_marks(v@.take(i as int)),
        decreases v@.len() - i,
    {
        let c = v[i];
        let n = c as u32;
        if n == 0xB0 || n == 0x27 || n == 0x22 || n == 0x2032 || n == 0x2033 {
            out.push(' ');
        } else {
            out.push(c);
        }
        assert(blank_marks(v@.take(i + 1)) =~= blank_marks(v@.take(i as int)).push(
            if is_dms_mark(c) { ' ' } else { c },
        ));
        i = i + 1;
    }
    assert(v@.take(v@.len() as int) =~= v@);
    out
}

/// Takes a coordinate text apart, given its uppercase form.
pub fn dms_parts_of(s: &str, upper: &str) -> (r: Option<DmsText>)
    requires
        !cuts_inside_char(s@, upper@),
    ensures
        r is None <==> dms_parts_spec(s@, upper@) is None,
        r matches Some(d) ==> dms_parts_spec(s@, upper@) == Some((d.direction, crate::text::views(d.parts@))),
{
    let sc = chars_of(s);
    if sc.len() == 0 {
        return None;
    }
    let uc = chars_of(upper);
    let direction: Option<bool> = if uc.len() > 0 && (uc[uc.len() - 1] == 'N' || uc[uc.len() - 1] == 'E') {
        Some(true)
    } else if uc.len() > 0 && (uc[uc.len() - 1] == 'S' || uc[uc.len() - 1] == 'W') {
        Some(false)
    } else {
        None
    };
    assert(direction == direction_of(upper@));
    let body: Vec<char> = match direction {
        Some(_) => {
            let mut b: Vec<char> = Vec::new();
            let mut k: usize = 0;
            while k < sc.len() - 1
                invariant
                    0 < sc@.len(),
                    k + 1 <= sc@.len(),
                    b@ == sc@.take(k as int),
                decreases sc@.len() - k,
            {
                b.push(sc[k]);
                k = k + 1;
                assert(b@ =~= sc@.take(k as int));
            }
            assert(b@ =~= sc@.drop_last());
            trim_chars(&b)
        },
        None => trim_chars(&sc),
    };
    assert(body@ == dms_body(s@, upper@));
    let replaced = replace_deg_chars(&body);
    let blanked = blank_marks_chars(&replaced);
    let text = string_of_chars(&blanked);
    let parts = split_words(text.as_str());
    if parts.len() == 0 || parts.len() > 3 {
        None
    } else {
        Some(DmsText { direction, parts })
    }
}

/// How a coordinate text comes apart.
#[derive(Debug, Clone)]
pub enum DmsSplit {
    /// A direction and one to three numbers.
    Parts(DmsText),
    /// No numbers, or more than three.
    NoCoordinate,
    /// The text ends in a direction letter whose own character takes more
    /// than one byte, which cannot be cut off by itself.
    CutInsideChar,
}

/// Takes a coordinate text apart.
pub fn dms_parts(s: &str) -> (r: DmsSplit)
    ensures
        r is CutInsideChar <==> cuts_inside_char(s@, uppercase(s@)),
        r is NoCoordinate ==> dms_parts_spec(s@, uppercase(s@)) is None,
        r matches DmsSplit::Parts(d) ==> dms_parts_spec(s@, uppercase(s@)) == Some(
            (d.direction, crate::text::views(d.parts@)),
        ),
        !cuts_inside_char(s@, uppercase(s@)) && dms_parts_spec(s@, uppercase(s@)) is None ==> r is NoCoordinate,
        all_ascii(s@) ==> !(r is CutInsideChar) && (r is NoCoordinate <==> dms_parts_spec(s@, ascii_upper(s@)) is None),
        all_ascii(s@) ==> (r matches DmsSplit::Parts(d) ==> dms_parts_spec(s@, ascii_upper(s@)) == Some(
            (d.direction, crate::text::views(d.parts@)),
        )),
{
    let up = to_uppercase(s);
    let sc = chars_of(s);
    let uc = chars_of(up.as_str());
    let dir_letter = uc.len() > 0 && (uc[uc.len() - 1] == 'N' || uc[uc.len() - 1] == 'E'
        || uc[uc.len() - 1] == 'S' || uc[uc.len() - 1] == 'W');
    if dir_letter && sc.len() > 0 && (sc[sc.len() - 1] as u32) >= 128 {
        return DmsSplit::CutInsideChar;
    }
    match dms_parts_of(s, up.as_str()) {
        Some(d) => DmsSplit::Parts(d),
        None => DmsSplit::NoCoordinate,
    }
}

/// The direction of a coordinate comes from its last letter alone: a text
/// whose uppercase form ends in `N` or `E` counts positive and one ending
/// in `S` or `W` negative, whatever its numbers; for ASCII text, that is
/// the text's own last letter in either case.
pub proof fn law_direction_from_last_letter(s: Seq<char>, upper: Seq<char>)
    ensures
        upper.len() > 0 && (upper.last() == 'N' || upper.last() == 'E') ==> (dms_parts_spec(s, upper) matches Some(
            (d, _),
        ) ==> d == Some(true)),
        upper.len() > 0 && (upper.last() == 'S' || upper.last() == 'W') ==> (dms_parts_spec(s, upper) matches Some(
            (d, _),
        ) ==> d == Some(false)),
        all_ascii(s) && s.len() > 0 && (s.last() == 'N' || s.last() == 'n' || s.last() == 'E' || s.last() == 'e')
            ==> (dms_parts_spec(s, ascii_upper(s)) matches Some((d, _)) ==> d == Some(true)),
        all_ascii(s) && s.len() > 0 && (s.last() == 'S' || s.last() == 's' || s.last() == 'W' || s.last() == 'w')
            ==> (dms_parts_spec(s, ascii_upper(s)) matches Some((d, _)) ==> d == Some(false)),
{
    if s.len() > 0 {
        let u = ascii_upper(s);
        assert(u.len() == s.len());
        assert(u.last() == u[s.len() - 1]);
    }
}

} // verus!
