//! The command parser: a raw line is split into words with POSIX-shell-like
//! quoting. The splitting itself is done by an outside lexer whose outcome
//! is a function of the characters alone; everything downstream is stated
//! over that outcome.

use vstd::prelude::*;

verus! {

/// What the lexer makes of a line: its words, or nothing when quoting or
/// escaping is erroneous.
pub uninterp spec fn lex_words(s: Seq<char>) -> Option<Seq<Seq<char>>>;

/// Relies on `shlex::split`: POSIX-shell-like word-splitting honouring single
/// and double quotes and backslash escapes; `None` exactly when the input is
/// erroneous (an unterminated quote or a dangling escape); a line with no
/// characters yields no words and no error.
#[verifier::external_body]
pub fn lex_line(s: &str) -> (r: Option<Vec<String>>)
    ensures
        match r {
            Some(ws) => lex_words(s@) == Some(ws.deep_view()),
            None => lex_words(s@) is None,
        },
{
    shlex::split(s)
}

} // verus!
