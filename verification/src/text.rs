//! Small string utilities: equality, ASCII lowercasing, trimming and joining,
//! each with an exact view-level contract.

use vstd::prelude::*;
use vstd::string::StrSliceExecFns;
use vstd::string::StringExecFns;

verus! {

/// Relies on `String::push` of std: appends the given character to the end of
/// the string.
pub assume_specification[ String::push ](s: &mut String, c: char)
    ensures
        final(s)@ == old(s)@.push(c),
;

/// Character-for-character equality of two string slices.
pub fn str_eq(a: &str, b: &str) -> (r: bool)
    ensures
        r == (a@ == b@),
{
    let an = a.unicode_len();
    let bn = b.unicode_len();
    if an != bn {
        return false;
    }
    let mut i: usize = 0;
    while i < an
        invariant
            an == a@.len(),
            an == b@.len(),
            i <= an,
            forall|j: int| 0 <= j < i ==> a@[j] == b@[j],
        decreases an - i,
    {
        if a.get_char(i) != b.get_char(i) {
            return false;
        }
        i = i + 1;
    }
    proof {
        assert(a@ =~= b@);
    }
    true
}

/// An upper-case ASCII letter mapped to its lower-case form; any other
/// character is left as it is.
pub open spec fn lower_char(c: char) -> char {
    if 'A' <= c && c <= 'Z' {
        ((c as u8) + 32) as char
    } else {
        c
    }
}

/// A text with each upper-case ASCII letter lowered.
pub open spec fn lower_text(s: Seq<char>) -> Seq<char> {
    s.map_values(|c: char| lower_char(c))
}

/// Lower-cases the ASCII letters of `s`, leaving every other character alone.
pub fn ascii_lowercase(s: &str) -> (r: String)
    ensures
        r@ == lower_text(s@),
{
    let n = s.unicode_len();
    let mut out = String::new();
    let mut i: usize = 0;
    while i < n
        invariant
            n == s@.len(),
            i <= n,
            out@ == lower_text(s@.subrange(0, i as int)),
        decreases n - i,
    {
        let c = s.get_char(i);
        let l: char = if c >= 'A' && c <= 'Z' {
            ((c as u8) + 32) as char
        } else {
            c
        };
        out.push(l);
        proof {
            assert(out@ =~= lower_text(s@.subrange(0, i as int + 1)));
        }
        i = i + 1;
    }
    proof {
        assert(s@.subrange(0, n as int) =~= s@);
    }
    out
}

/// Whether the trimmer treats a character as blank: space, tab, carriage
/// return or line feed.
pub open spec fn is_blank(c: char) -> bool {
    c == ' ' || c == '\t' || c == '\r' || c == '\n'
}

/// A text with its leading blanks removed.
pub open spec fn trim_front(s: Seq<char>) -> Seq<char>
    decreases s.len(),
{
    if s.len() > 0 && is_blank(s.first()) {
        trim_front(s.drop_first())
    } else {
        s
    }
}

/// A text with its trailing blanks removed.
pub open spec fn trim_back(s: Seq<char>) -> Seq<char>
    decreases s.len(),
{
    if s.len() > 0 && is_blank(s.last()) {
        trim_back(s.drop_last())
    } else {
        s
    }
}

/// A text with leading and trailing blanks removed.
pub open spec fn trim_text(s: Seq<char>) -> Seq<char> {
    trim_back(trim_front(s))
}

proof fn lemma_trim_front_subrange(s: Seq<char>, lo: int)
    requires
        0 <= lo < s.len(),
        forall|j: int| 0 <= j < lo ==> is_blank(s[j]),
    ensures
        trim_front(s) == trim_front(s.subrange(lo, s.len() as int)),
    decreases lo,
{
    if lo > 0 {
        assert(trim_front(s) == trim_front(s.drop_first()));
        let t = s.subrange(1, s.len() as int);
        assert(s.drop_first() =~= t);
        lemma_trim_front_subrange(t, lo - 1);
        assert(t.subrange(lo - 1, t.len() as int) =~= s.subrange(lo, s.len() as int));
    } else {
        assert(s.subrange(0, s.len() as int) =~= s);
    }
}

proof fn lemma_trim_back_subrange(s: Seq<char>, hi: int)
    requires
        0 < hi <= s.len(),
        forall|j: int| hi <= j < s.len() ==> is_blank(s[j]),
    ensures
        trim_back(s) == trim_back(s.subrange(0, hi)),
    decreases s.len() - hi,
{
    if hi < s.len() {
        assert(is_blank(s.last()));
        assert(trim_back(s) == trim_back(s.drop_last()));
        let t = s.subrange(0, s.len() - 1);
        assert(s.drop_last() =~= t);
        lemma_trim_back_subrange(t, hi);
        assert(t.subrange(0, hi) =~= s.subrange(0, hi));
    } else {
        assert(s.subrange(0, hi) =~= s);
    }
}

/// Removes leading and trailing blanks (space, tab, CR, LF) from `s`.
pub fn trim_line(s: &str) -> (r: String)
    ensures
        r@ == trim_text(s@),
{
    let n = s.unicode_len();
    let mut lo: usize = 0;
    loop
        invariant
            n == s@.len(),
            lo <= n,
            forall|j: int| 0 <= j < lo ==> is_blank(s@[j]),
        ensures
            lo <= n,
            forall|j: int| 0 <= j < lo ==> is_blank(s@[j]),
            lo == n || !is_blank(s@[lo as int]),
        decreases n - lo,
    {
        if lo == n {
            break;
        }
        let c = s.get_char(lo);
        if !(c == ' ' || c == '\t' || c == '\r' || c == '\n') {
            break;
        }
        lo = lo + 1;
    }
    if lo == n {
        // Every character is blank: the trimmed text is empty.
        proof {
            if n > 0 {
                lemma_trim_front_subrange(s@, n as int - 1);
                let t = s@.subrange(n as int - 1, n as int);
                assert(is_blank(t.first()));
                assert(t.drop_first() =~= Seq::<char>::empty());
                assert(trim_front(t) == trim_front(t.drop_first()));
                assert(trim_front(Seq::<char>::empty()) =~= Seq::<char>::empty());
                assert(trim_front(s@) =~= Seq::<char>::empty());
            } else {
                assert(s@ =~= Seq::<char>::empty());
            }
            assert(trim_text(s@) =~= Seq::<char>::empty());
        }
        return String::new();
    }
    let ghost rest = s@.subrange(lo as int, n as int);
    proof {
        if lo > 0 {
            lemma_trim_front_subrange(s@, lo as int);
        } else {
            assert(s@.subrange(0, n as int) =~= s@);
        }
        // The remainder starts with a non-blank character, so trim_front is done.
        assert(!is_blank(rest.first()));
        assert(trim_front(s@) == rest);
    }
    let mut hi: usize = n;
    loop
        invariant
            n == s@.len(),
            lo < n,
            lo < hi <= n,
            !is_blank(s@[lo as int]),
            forall|j: int| hi <= j < n ==> is_blank(s@[j]),
        ensures
            lo < hi <= n,
            forall|j: int| hi <= j < n ==> is_blank(s@[j]),
            !is_blank(s@[hi as int - 1]),
        decreases hi,
    {
        let c = s.get_char(hi - 1);
        if !(c == ' ' || c == '\t' || c == '\r' || c == '\n') {
            break;
        }
        hi = hi - 1;
    }
    let piece = s.substring_char(lo, hi);
    proof {
        let kept = s@.subrange(lo as int, hi as int);
        if hi < n {
            lemma_trim_back_subrange(rest, hi as int - lo as int);
            assert(rest.subrange(0, hi as int - lo as int) =~= kept);
        } else {
            assert(rest =~= kept);
        }
        // The kept piece ends with a non-blank character, so trim_back is done.
        assert(kept.last() == s@[hi as int - 1]);
        assert(trim_back(kept) == kept);
        assert(trim_text(s@) == kept);
    }
    String::from_str(piece)
}

/// The words joined with a single space between neighbours.
pub open spec fn joined_words(words: Seq<Seq<char>>) -> Seq<char>
    decreases words.len(),
{
    if words.len() == 0 {
        Seq::empty()
    } else if words.len() == 1 {
        words[0]
    } else {
        joined_words(words.drop_last()) + " "@ + words.last()
    }
}

/// Joins `words` with a single space between neighbours.
pub fn join_words(words: &[String]) -> (r: String)
    ensures
        r@ == joined_words(words.deep_view()),
{
    let n = words.len();
    let mut out = String::new();
    let mut i: usize = 0;
    while i < n
        invariant
            n == words@.len(),
            i <= n,
            out@ == joined_words(words.deep_view().subrange(0, i as int)),
        decreases n - i,
    {
        if i > 0 {
            out.append(" ");
        }
        out.append(words[i].as_str());
        proof {
            let all = words.deep_view();
            assert(all.subrange(0, i as int + 1).drop_last() =~= all.subrange(0, i as int));
            assert(all.subrange(0, i as int + 1).last() == all[i as int]);
            assert(out@ =~= joined_words(all.subrange(0, i as int + 1)));
        }
        i = i + 1;
    }
    proof {
        assert(words.deep_view().subrange(0, n as int) =~= words.deep_view());
    }
    out
}

} // verus!
