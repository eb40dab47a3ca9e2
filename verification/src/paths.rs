//! Paths as text, with `/` between components.

use vstd::prelude::*;
use crate::text::{append_chars, to_chars, to_text};

verus! {

/// `name` adjoined to `base`: a `name` that starts at the root replaces
/// `base`; otherwise it follows `base`, with one `/` between the two unless
/// `base` is empty or already ends in one.
pub open spec fn joined(base: Seq<char>, name: Seq<char>) -> Seq<char> {
    if name.len() > 0 && name[0] == '/' {
        name
    } else if base.len() == 0 || base.last() == '/' {
        base + name
    } else {
        base + seq!['/'] + name
    }
}

/// `inner` is `outer` itself or lies below it.
pub open spec fn is_within(inner: Seq<char>, outer: Seq<char>) -> bool {
    inner == outer || (outer.len() < inner.len() && inner.subrange(0, outer.len() as int) == outer
        && (inner[outer.len() as int] == '/' || (outer.len() > 0 && outer.last() == '/')))
}

/// Neither path is the other or lies below it.
pub open spec fn disjoint(a: Seq<char>, b: Seq<char>) -> bool {
    !is_within(a, b) && !is_within(b, a)
}

/// Adjoins `name` to `base`, both given as characters.
pub fn join_chars(base: &Vec<char>, name: &Vec<char>) -> (path: Vec<char>)
    ensures
        path@ == joined(base@, name@),
{
    let mut path: Vec<char> = Vec::new();
    if name.len() > 0 && name[0] == '/' {
        append_chars(&mut path, name);
        assert(path@ =~= name@);
    } else {
        append_chars(&mut path, base);
        if base.len() > 0 && base[base.len() - 1] != '/' {
            path.push('/');
        }
        append_chars(&mut path, name);
        assert(path@ =~= joined(base@, name@));
    }
    path
}

/// Adjoins `name` to `base`.
pub fn join_path(base: &str, name: &str) -> (path: String)
    ensures
        path@ == joined(base@, name@),
{
    let b = to_chars(base);
    let n = to_chars(name);
    let p = join_chars(&b, &n);
    to_text(&p)
}

} // verus!
