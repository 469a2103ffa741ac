//! Tag identifiers, and what the text of a tag value says.

use vstd::prelude::*;
use crate::text::{all_ascii, ascii_lower, lowercase, owned, push_dec, nat_dec, str_eq, to_lowercase, views};

verus! {

/// The name of an ExifTool tag, such as `Make` or `GPSLatitude`.
#[derive(Debug, Clone, Copy)]
pub struct TagId(pub &'static str);

impl TagId {
    /// A tag identifier with the given name.
    pub fn new(name: &'static str) -> (t: Self)
        ensures
            t.0@ == name@,
    {
        TagId(name)
    }

    /// The tag's name.
    pub fn name(&self) -> (s: &str)
        ensures
            s@ == self.0@,
    {
        self.0
    }
}

/// The truth value that a word names, compared without regard to case:
/// `true`, `yes`, `1`, `on` and `false`, `no`, `0`, `off`.
pub open spec fn bool_of_word(lower: Seq<char>) -> Option<bool> {
    if lower == "true"@ || lower == "yes"@ || lower == "1"@ || lower == "on"@ {
        Some(true)
    } else if lower == "false"@ || lower == "no"@ || lower == "0"@ || lower == "off"@ {
        Some(false)
    } else {
        None
    }
}

/// The truth value of a lowercased word.
pub fn bool_from_lowercase(lower: &str) -> (b: Option<bool>)
    ensures
        b == bool_of_word(lower@),
{
    if str_eq(lower, "true") || str_eq(lower, "yes") || str_eq(lower, "1") || str_eq(lower, "on") {
        Some(true)
    } else if str_eq(lower, "false") || str_eq(lower, "no") || str_eq(lower, "0") || str_eq(
        lower,
        "off",
    ) {
        Some(false)
    } else {
        None
    }
}

/// The truth value that a text value names, if any.
pub fn bool_word(text: &str) -> (b: Option<bool>)
    ensures
        b == bool_of_word(lowercase(text@)),
        all_ascii(text@) ==> b == bool_of_word(ascii_lower(text@)),
{
    let l = to_lowercase(text);
    bool_from_lowercase(l.as_str())
}

/// Items joined with `, `.
pub open spec fn join_with_comma(ws: Seq<Seq<char>>) -> Seq<char>
    decreases ws.len(),
{
    if ws.len() == 0 {
        Seq::<char>::empty()
    } else if ws.len() == 1 {
        ws[0]
    } else {
        join_with_comma(ws.drop_last()) + ", "@ + ws.last()
    }
}

/// The text of a list of values: the items' texts, joined with `, `, in
/// brackets.
pub fn list_text(items: &Vec<String>) -> (s: String)
    ensures
        s@ == "["@ + join_with_comma(views(items@)) + "]"@,
{
    let mut s = owned("[");
    let mut i: usize = 0;
    while i < items.len()
        invariant
            i <= items@.len(),
            s@ == "["@ + join_with_comma(views(items@).take(i as int)),
        decreases items@.len() - i,
    {
        assert(views(items@).take(i + 1).drop_last() =~= views(items@).take(i as int));
        assert(views(items@).take(i + 1).last() == items@[i as int]@);
        if i > 0 {
            s.append(", ");
        } else {
            assert(views(items@).take(1) =~= seq![items@[0]@]);
        }
        s.append(items[i].as_str());
        i = i + 1;
    }
    assert(views(items@).take(items@.len() as int) =~= views(items@));
    s.append("]");
    s
}

/// The text of binary data of a given size: `[binary: N bytes]`.
pub fn binary_text(len: usize) -> (s: String)
    ensures
        s@ == "[binary: "@ + nat_dec(len as nat) + " bytes]"@,
{
    let mut s = owned("[binary: ");
    push_dec(&mut s, len as u64);
    s.append(" bytes]");
    s
}

} // verus!
