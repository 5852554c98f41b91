//! The sandbox path model. Paths are plain strings; a path is inside the
//! sandbox when it equals the root or extends it at a component boundary
//! (the root followed by a slash). Canonicalisation itself is filesystem
//! work done by the caller; this module holds the pure checks around it.

use vstd::prelude::*;
use vstd::string::StrSliceExecFns;
use vstd::string::StringExecFns;

use crate::text::str_eq;

verus! {

/// Whether a path string is absolute: it starts with a slash.
pub open spec fn is_abs(p: Seq<char>) -> bool {
    p.len() > 0 && p.first() == '/'
}

/// Whether `p` denotes the sandbox root itself or a path below it: it equals
/// the root, or extends it right after a slash.
pub open spec fn within_root(p: Seq<char>, root: Seq<char>) -> bool {
    p == root || (root + "/"@).is_prefix_of(p)
}

/// A relative path placed below a directory, with a single slash between the
/// two unless the directory already ends in one.
pub open spec fn joined(cur: Seq<char>, rel: Seq<char>) -> Seq<char> {
    if cur.len() > 0 && cur.last() == '/' {
        cur + rel
    } else {
        cur + "/"@ + rel
    }
}

/// Whether `p` starts with a slash.
pub fn is_absolute_path(p: &str) -> (r: bool)
    ensures
        r == is_abs(p@),
{
    let n = p.unicode_len();
    if n == 0 {
        false
    } else {
        p.get_char(0) == '/'
    }
}

/// Whether `pre` is a prefix of `p`, character for character.
pub fn has_prefix(p: &str, pre: &str) -> (r: bool)
    ensures
        r == pre@.is_prefix_of(p@),
{
    let pn = p.unicode_len();
    let en = pre.unicode_len();
    if en > pn {
        return false;
    }
    let mut i: usize = 0;
    while i < en
        invariant
            pn == p@.len(),
            en == pre@.len(),
            en <= pn,
            i <= en,
            forall|j: int| 0 <= j < i ==> p@[j] == pre@[j],
        decreases en - i,
    {
        if p.get_char(i) != pre.get_char(i) {
            return false;
        }
        i = i + 1;
    }
    proof {
        assert(pre@ =~= p@.subrange(0, en as int));
    }
    true
}

/// Whether `p` is the sandbox root or a descendant of it.
pub fn path_within_root(p: &str, root: &str) -> (r: bool)
    ensures
        r == within_root(p@, root@),
{
    if str_eq(p, root) {
        return true;
    }
    let rooted = String::from_str(root).concat("/");
    has_prefix(p, rooted.as_str())
}

/// Joins `rel` below the directory `cur`.
pub fn join_path(cur: &str, rel: &str) -> (r: String)
    ensures
        r@ == joined(cur@, rel@),
{
    let n = cur.unicode_len();
    let mut out = String::from_str(cur);
    if !(n > 0 && cur.get_char(n - 1) == '/') {
        out.append("/");
    }
    out.append(rel);
    proof {
        assert(out@ =~= joined(cur@, rel@));
    }
    out
}

} // verus!
