//! Argument lists for the external tools.

use crate::text::{push_str, string_of};
use vstd::prelude::*;

verus! {

/// The views of a list of arguments.
pub open spec fn arg_views(v: Seq<String>) -> Seq<Seq<char>> {
    v.map_values(|s: String| s@)
}

/// Appends `arg` to the list.
pub fn push_arg(args: &mut Vec<String>, arg: &str)
    ensures
        arg_views(final(args)@) == arg_views(old(args)@).push(arg@),
{
    let ghost before = arg_views(args@);
    let owned = arg.to_owned();
    args.push(owned);
    assert(arg_views(args@) == before.push(arg@));
}

/// `a` with `b` right after it.
pub fn joined(a: &str, b: &str) -> (out: String)
    ensures
        out@ == a@ + b@,
{
    let mut buf: Vec<char> = Vec::new();
    push_str(&mut buf, a);
    push_str(&mut buf, b);
    assert(buf@ == a@ + b@);
    string_of(&buf)
}

/// Appends one argument to the list: `key` with `value` right after it.
pub fn push_joined(args: &mut Vec<String>, key: &str, value: &str)
    ensures
        arg_views(final(args)@) == arg_views(old(args)@).push(key@ + value@),
{
    let ghost before = arg_views(args@);
    let owned = joined(key, value);
    args.push(owned);
    assert(arg_views(args@) == before.push(key@ + value@));
}

} // verus!
