//! Output sanitisation: text placed into a response keeps printable ASCII,
//! CR, LF, the ESC byte that opens an ANSI colour sequence, and everything
//! beyond ASCII; the remaining control bytes and DEL are dropped, since they
//! would corrupt the client's terminal renderer.

use vstd::prelude::*;
use vstd::string::StrSliceExecFns;

verus! {

/// Whether the sanitiser keeps a character.
pub open spec fn keep_char(c: char) -> bool {
    c == '\n' || c == '\r' || c == '\u{1b}' || (c as u32 >= 0x20 && c as u32 != 0x7f)
}

/// The sanitised form of a text: its kept characters, in order.
pub open spec fn sanitize_text(s: Seq<char>) -> Seq<char>
    decreases s.len(),
{
    if s.len() == 0 {
        Seq::empty()
    } else {
        sanitize_text(s.drop_last()) + if keep_char(s.last()) {
            seq![s.last()]
        } else {
            Seq::empty()
        }
    }
}

/// Removes the characters a terminal renderer cannot show from `s`.
pub fn clean_output(s: String) -> (r: String)
    ensures
        r@ == sanitize_text(s@),
{
    let n = s.as_str().unicode_len();
    let mut out = String::new();
    let mut i: usize = 0;
    while i < n
        invariant
            n == s@.len(),
            i <= n,
            out@ == sanitize_text(s@.subrange(0, i as int)),
        decreases n - i,
    {
        let c = s.as_str().get_char(i);
        let code = c as u32;
        if c == '\n' || c == '\r' || code == 0x1b || (code >= 0x20 && code != 0x7f) {
            out.push(c);
        }
        proof {
            let pre = s@.subrange(0, i as int + 1);
            assert(pre.drop_last() =~= s@.subrange(0, i as int));
            assert(pre.last() == s@[i as int]);
            assert(out@ =~= sanitize_text(pre));
        }
        i = i + 1;
    }
    proof {
        assert(s@.subrange(0, n as int) =~= s@);
    }
    out
}

/// Sanitising is idempotent: every character the sanitiser keeps, it keeps
/// again.
pub proof fn lemma_sanitize_idempotent(s: Seq<char>)
    ensures
        sanitize_text(sanitize_text(s)) == sanitize_text(s),
    decreases s.len(),
{
    if s.len() > 0 {
        lemma_sanitize_idempotent(s.drop_last());
        if keep_char(s.last()) {
            let t = sanitize_text(s.drop_last()) + seq![s.last()];
            assert(t.drop_last() =~= sanitize_text(s.drop_last()));
            assert(sanitize_text(t) =~= sanitize_text(s));
        } else {
            assert(sanitize_text(s) =~= sanitize_text(s.drop_last()));
        }
    }
}

} // verus!
