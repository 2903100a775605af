//! What can be said of a path's text on every platform: which texts are a
//! single relative component, which are absolute paths of plain components
//! (`/a/b`), and what such a path's parent is.

use vstd::prelude::*;

verus! {

/// A path made of a single relative component on every platform: not
/// empty, with no separator (`/` or `\\`) and no drive prefix (`:`).
pub open spec fn is_bare_name(p: Seq<char>) -> bool {
    p.len() > 0 && forall|i: int| 0 <= i < p.len() ==> #[trigger] p[i] != '/' && p[i] != '\\' && p[i]
        != ':'
}

/// The index of the last `/` among the first `n` characters of `p`, or -1
/// where there is none.
pub open spec fn last_slash_before(p: Seq<char>, n: int) -> int
    decreases n,
{
    if n <= 0 {
        -1
    } else if p[n - 1] == '/' {
        n - 1
    } else {
        last_slash_before(p, n - 1)
    }
}

/// The index of the last `/` in `p`, or -1 where there is none.
pub open spec fn last_slash(p: Seq<char>) -> int {
    last_slash_before(p, p.len() as int)
}

/// A path component that every platform reads the same way: a bare name
/// that is not `.` or `..`.
pub open spec fn is_plain_component(c: Seq<char>) -> bool {
    is_bare_name(c) && c != seq!['.'] && c != seq!['.', '.']
}

/// An absolute path of plain components joined by single slashes, such as
/// `/tmp/plugin.dll`: a `/`, then plain components each separated by one
/// `/`, with no `/` at the end.
pub open spec fn is_plain_absolute(p: Seq<char>) -> bool
    decreases p.len(),
{
    if p.len() == 0 || p[0] != '/' {
        false
    } else {
        let k = last_slash(p);
        if 0 < k < p.len() {
            is_plain_component(p.subrange(k + 1, p.len() as int)) && is_plain_absolute(
                p.subrange(0, k),
            )
        } else {
            k == 0 && is_plain_component(p.subrange(1, p.len() as int))
        }
    }
}

/// The parent of a plain absolute path: the text before its last `/`, or
/// `/` where that slash is the first character.
pub open spec fn plain_parent(p: Seq<char>) -> Seq<char> {
    if last_slash(p) <= 0 {
        seq!['/']
    } else {
        p.subrange(0, last_slash(p))
    }
}

} // verus!
