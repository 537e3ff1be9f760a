//! Terminal presentation: styled text and column padding, both done by `console`.
use vstd::prelude::*;

verus! {

/// The escape sequence that selects the graphic rendition `code`.
pub open spec fn sgr(code: Seq<char>) -> Seq<char> {
    seq!['\x1b', '['] + code + seq!['m']
}

/// The escape sequence that resets every rendition.
pub open spec fn reset() -> Seq<char> {
    sgr(seq!['0'])
}

/// `s` between the sequences `codes` and a reset when styling is on; `s` itself otherwise.
pub open spec fn wrapped(codes: Seq<char>, s: Seq<char>, on: bool) -> Seq<char> {
    if on {
        codes + s + reset()
    } else {
        s
    }
}

pub open spec fn bold_text(s: Seq<char>, on: bool) -> Seq<char> {
    wrapped(sgr(seq!['1']), s, on)
}

pub open spec fn red_bold_text(s: Seq<char>, on: bool) -> Seq<char> {
    wrapped(sgr(seq!['3', '1']) + sgr(seq!['1']), s, on)
}

pub open spec fn yellow_text(s: Seq<char>, on: bool) -> Seq<char> {
    wrapped(sgr(seq!['3', '3']), s, on)
}

/// `n` spaces; none when `n` is not positive.
pub open spec fn spaces(n: int) -> Seq<char> {
    Seq::new(if n > 0 { n as nat } else { 0 }, |i: int| ' ')
}

/// Every character is printable ASCII, so each takes exactly one terminal column
/// and none starts an escape sequence.
pub open spec fn is_plain(s: Seq<char>) -> bool {
    forall|i: int| 0 <= i < s.len() ==> ' ' <= #[trigger] s[i] <= '~'
}

/// What `console` makes of `s` when it pads it on the right to `width` display columns.
pub uninterp spec fn padded(s: Seq<char>, width: nat) -> Seq<char>;

/// Relies on `console::style(..).bold().force_styling(on)`: with styling forced
/// on, the text is put between the bold sequence and the reset sequence; forced
/// off, it is written unchanged.
#[verifier::external_body]
pub(crate) fn bold(s: &str, on: bool) -> (r: String)
    ensures
        r@ == bold_text(s@, on),
{
    console::style(s).bold().force_styling(on).to_string()
}

/// Relies on `console::style(..).red().bold().force_styling(on)`: the foreground
/// sequence is written before the attribute sequence, then the text and a reset.
#[verifier::external_body]
pub(crate) fn red_bold(s: &str, on: bool) -> (r: String)
    ensures
        r@ == red_bold_text(s@, on),
{
    console::style(s).red().bold().force_styling(on).to_string()
}

/// Relies on `console::style(..).yellow().force_styling(on)`.
#[verifier::external_body]
pub(crate) fn yellow(s: &str, on: bool) -> (r: String)
    ensures
        r@ == yellow_text(s@, on),
{
    console::style(s).yellow().force_styling(on).to_string()
}

/// Relies on `console::pad_str` with left alignment and no truncation: the text
/// comes first, followed by spaces up to `width` display columns, and nothing is
/// added when it is already as wide. A printable ASCII character takes one column.
#[verifier::external_body]
pub(crate) fn pad_right(s: &str, width: usize) -> (r: String)
    ensures
        r@ == padded(s@, width as nat),
        is_plain(s@) ==> r@ == s@ + spaces(width - s@.len()),
{
    console::pad_str(s, width, console::Alignment::Left, None).into_owned()
}

} // verus!
