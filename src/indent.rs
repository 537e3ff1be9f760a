//! Indentation of multi-line text, done by `indenter`.
use std::fmt::Write;
use vstd::prelude::*;

verus! {

/// `s` with two spaces inserted before the first character of every line that
/// is not empty; `at_start` tells whether the first character of `s` starts a line.
pub open spec fn indented_from(s: Seq<char>, at_start: bool) -> Seq<char>
    decreases s.len(),
{
    if s.len() == 0 {
        s
    } else if s[0] == '\n' {
        seq!['\n'] + indented_from(s.drop_first(), true)
    } else if at_start {
        seq![' ', ' ', s[0]] + indented_from(s.drop_first(), false)
    } else {
        seq![s[0]] + indented_from(s.drop_first(), false)
    }
}

/// Every non-empty line of `s` indented by two spaces.
pub open spec fn indented(s: Seq<char>) -> Seq<char> {
    indented_from(s, true)
}

/// Relies on `indenter::indented(..).with_str("  ")`: its writer splits what it
/// is given at each newline, keeps the newlines, and writes the indentation
/// before the first character of each line that has one.
#[verifier::external_body]
pub(crate) fn indent(s: &str) -> (r: String)
    ensures
        r@ == indented(s@),
{
    let mut out = String::new();
    write!(indenter::indented(&mut out).with_str("  "), "{}", s).unwrap();
    out
}

} // verus!
