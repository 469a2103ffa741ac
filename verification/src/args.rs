//! Building ExifTool argument lists.
//!
//! An argument list is a `Vec<String>`; its meaning is the sequence of the
//! arguments' character sequences, `views(args@)`.

use vstd::prelude::*;
use crate::text::{concat2, owned, views};

verus! {

/// `[a]` when `b` holds, else nothing.
#[verifier::opaque]
pub open spec fn flag(b: bool, a: Seq<char>) -> Seq<Seq<char>> {
    if b {
        seq![a]
    } else {
        Seq::<Seq<char>>::empty()
    }
}

/// The view of an optional string.
pub open spec fn opt_view(o: Option<String>) -> Option<Seq<char>> {
    match o {
        Some(s) => Some(s@),
        None => None,
    }
}

/// `[name, v]` when there is a value `v`, else nothing.
#[verifier::opaque]
pub open spec fn opt_pair(name: Seq<char>, v: Option<Seq<char>>) -> Seq<Seq<char>> {
    match v {
        Some(x) => seq![name, x],
        None => Seq::<Seq<char>>::empty(),
    }
}

/// `name` before each value: `[name, v0, name, v1, ...]`.
pub open spec fn pairs(name: Seq<char>, vals: Seq<Seq<char>>) -> Seq<Seq<char>>
    decreases vals.len(),
{
    if vals.len() == 0 {
        Seq::<Seq<char>>::empty()
    } else {
        pairs(name, vals.drop_last()) + seq![name, vals.last()]
    }
}

/// Each value with `p` in front of it.
pub open spec fn prefixed(p: Seq<char>, vals: Seq<Seq<char>>) -> Seq<Seq<char>> {
    vals.map_values(|v: Seq<char>| p + v)
}

/// Appends one argument.
pub fn push_arg(args: &mut Vec<String>, a: &str)
    ensures
        views(final(args)@) == views(old(args)@).push(a@),
{
    let ghost before = args@;
    let s = owned(a);
    args.push(s);
    assert(views(args@) =~= views(before).push(a@));
}

/// Appends an owned argument.
pub fn push_owned(args: &mut Vec<String>, s: String)
    ensures
        views(final(args)@) == views(old(args)@).push(s@),
{
    let ghost before = args@;
    let ghost v = s@;
    args.push(s);
    assert(views(args@) =~= views(before).push(v));
}

/// Appends `a` when `b` holds.
pub fn push_flag(args: &mut Vec<String>, b: bool, a: &str)
    ensures
        views(final(args)@) == views(old(args)@) + flag(b, a@),
{
    reveal(flag);
    let ghost before = views(args@);
    if b {
        push_arg(args, a);
        assert(views(args@) =~= before + flag(b, a@));
    } else {
        assert(views(args@) =~= before + flag(b, a@));
    }
}

/// Appends `name` and the value, when there is one.
pub fn push_opt_pair(args: &mut Vec<String>, name: &str, v: &Option<String>)
    ensures
        views(final(args)@) == views(old(args)@) + opt_pair(name@, opt_view(*v)),
{
    reveal(opt_pair);
    let ghost before = views(args@);
    match v {
        Some(x) => {
            push_arg(args, name);
            push_arg(args, x.as_str());
            assert(views(args@) =~= before + opt_pair(name@, opt_view(*v)));
        },
        None => {
            assert(views(args@) =~= before + opt_pair(name@, opt_view(*v)));
        },
    }
}

/// Appends `name` before each value.
pub fn push_pairs(args: &mut Vec<String>, name: &str, vals: &Vec<String>)
    ensures
        views(final(args)@) == views(old(args)@) + pairs(name@, views(vals@)),
{
    let ghost before = views(args@);
    let mut i: usize = 0;
    assert(views(vals@).take(0) =~= Seq::<Seq<char>>::empty());
    assert(before + pairs(name@, views(vals@).take(0)) =~= before);
    while i < vals.len()
        invariant
            i <= vals@.len(),
            views(args@) == before + pairs(name@, views(vals@).take(i as int)),
        decreases vals@.len() - i,
    {
        push_arg(args, name);
        push_arg(args, vals[i].as_str());
        assert(views(vals@).take(i + 1).drop_last() =~= views(vals@).take(i as int));
        assert(views(args@) =~= before + pairs(name@, views(vals@).take(i + 1)));
        i = i + 1;
    }
    assert(views(vals@).take(vals@.len() as int) =~= views(vals@));
}

/// Appends each value with `p` in front of it.
pub fn push_prefixed(args: &mut Vec<String>, p: &str, vals: &Vec<String>)
    ensures
        views(final(args)@) == views(old(args)@) + prefixed(p@, views(vals@)),
{
    let ghost before = views(args@);
    let mut i: usize = 0;
    assert(before + prefixed(p@, views(vals@).take(0)) =~= before);
    while i < vals.len()
        invariant
            i <= vals@.len(),
            views(args@) == before + prefixed(p@, views(vals@).take(i as int)),
        decreases vals@.len() - i,
    {
        let a = concat2(p, vals[i].as_str());
        push_owned(args, a);
        assert(views(args@) =~= before + prefixed(p@, views(vals@).take(i + 1)));
        i = i + 1;
    }
    assert(views(vals@).take(vals@.len() as int) =~= views(vals@));
}

/// Appends all of `more`.
pub fn push_all(args: &mut Vec<String>, more: &Vec<String>)
    ensures
        views(final(args)@) == views(old(args)@) + views(more@),
{
    let ghost before = views(args@);
    let mut i: usize = 0;
    assert(before + views(more@).take(0) =~= before);
    while i < more.len()
        invariant
            i <= more@.len(),
            views(args@) == before + views(more@).take(i as int),
        decreases more@.len() - i,
    {
        push_arg(args, more[i].as_str());
        assert(views(args@) =~= before + views(more@).take(i + 1));
        i = i + 1;
    }
    assert(views(more@).take(more@.len() as int) =~= views(more@));
}

} // verus!
