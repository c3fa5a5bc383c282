//! What a terminal shows of a text: the text without its escape sequences,
//! and the number of columns it takes.

use vstd::prelude::*;

verus! {

/// `s` without the escape sequences that `console` recognises.
pub uninterp spec fn stripped(s: Seq<char>) -> Seq<char>;

/// The number of terminal columns that `s` takes, by `console`'s measure:
/// escape sequences take none.
pub uninterp spec fn text_width(s: Seq<char>) -> nat;

/// `console::strip_ansi_codes`: the text that is left when the escape
/// sequences are taken out. The result depends on the text alone.
#[verifier::external_body]
pub(crate) fn strip_markers(text: &str) -> (out: String)
    ensures
        out@ == stripped(text@),
{
    console::strip_ansi_codes(text).into_owned()
}

/// `console::measure_text_width`: the display width of the text with its
/// escape sequences left out. The result depends on the text alone.
#[verifier::external_body]
pub(crate) fn measure(text: &str) -> (width: usize)
    ensures
        width == text_width(text@),
{
    console::measure_text_width(text)
}

/// `console::Term::size` of the standard output: the number of columns of
/// the terminal, or the crate's default where there is none. Nothing is
/// known of the number.
#[verifier::external_body]
pub(crate) fn terminal_columns() -> (columns: u16) {
    console::Term::stdout().size().1
}

} // verus!
