//! Terminal styles: colours and weights, written as escape sequences around
//! a text.

use owo_colors::OwoColorize;
use crate::text::{free_of, is_digit, lemma_free_of_append};
use vstd::prelude::*;

verus! {

/// One colour or weight that a text can be given.
#[derive(Clone, Copy, Debug, PartialEq, Eq, Structural)]
pub enum Style {
    Red,
    Green,
    Yellow,
    Blue,
    Purple,
    Cyan,
    Bold,
    Dimmed,
    Underline,
}

/// The character that starts every escape sequence.
pub open spec fn escape() -> char {
    '\x1b'
}

impl Style {
    /// Whether the style sets the foreground colour; the others set a weight.
    pub open spec fn is_colour(self) -> bool {
        match self {
            Style::Bold | Style::Dimmed | Style::Underline => false,
            _ => true,
        }
    }

    /// The sequence that switches the style on.
    pub open spec fn on(self) -> Seq<char> {
        match self {
            Style::Red => seq![escape(), '[', '3', '1', 'm'],
            Style::Green => seq![escape(), '[', '3', '2', 'm'],
            Style::Yellow => seq![escape(), '[', '3', '3', 'm'],
            Style::Blue => seq![escape(), '[', '3', '4', 'm'],
            Style::Purple => seq![escape(), '[', '3', '5', 'm'],
            Style::Cyan => seq![escape(), '[', '3', '6', 'm'],
            Style::Bold => seq![escape(), '[', '1', 'm'],
            Style::Dimmed => seq![escape(), '[', '2', 'm'],
            Style::Underline => seq![escape(), '[', '4', 'm'],
        }
    }

    /// The sequence that ends the style: a colour goes back to the default
    /// foreground, a weight resets every attribute.
    pub open spec fn off(self) -> Seq<char> {
        if self.is_colour() {
            seq![escape(), '[', '3', '9', 'm']
        } else {
            seq![escape(), '[', '0', 'm']
        }
    }
}

/// `text` in the given style: switched on before it and off after it.
pub open spec fn styled_text(style: Style, text: Seq<char>) -> Seq<char> {
    style.on() + text + style.off()
}

/// Styling a text brings in no character but those of the style
/// sequences: the escape character, the bracket, digits and the letter `m`.
pub proof fn lemma_styled_free_of(style: Style, text: Seq<char>, c: char)
    requires
        free_of(text, c),
        !is_digit(c),
        c != escape(),
        c != '[',
        c != 'm',
    ensures
        free_of(styled_text(style, text), c),
{
    lemma_free_of_append(style.on(), text, c);
    lemma_free_of_append(style.on() + text, style.off(), c);
}

/// `owo_colors::OwoColorize::red`, displayed: the text between the
/// sequences for red foreground and for default foreground.
#[verifier::external_body]
fn red(text: &str) -> (out: String)
    ensures
        out@ == styled_text(Style::Red, text@),
{
    text.red().to_string()
}

/// `owo_colors::OwoColorize::green`, displayed: the text between the
/// sequences for green foreground and for default foreground.
#[verifier::external_body]
fn green(text: &str) -> (out: String)
    ensures
        out@ == styled_text(Style::Green, text@),
{
    text.green().to_string()
}

/// `owo_colors::OwoColorize::yellow`, displayed: the text between the
/// sequences for yellow foreground and for default foreground.
#[verifier::external_body]
fn yellow(text: &str) -> (out: String)
    ensures
        out@ == styled_text(Style::Yellow, text@),
{
    text.yellow().to_string()
}

/// `owo_colors::OwoColorize::blue`, displayed: the text between the
/// sequences for blue foreground and for default foreground.
#[verifier::external_body]
fn blue(text: &str) -> (out: String)
    ensures
        out@ == styled_text(Style::Blue, text@),
{
    text.blue().to_string()
}

/// `owo_colors::OwoColorize::purple`, displayed: the text between the
/// sequences for magenta foreground and for default foreground.
#[verifier::external_body]
fn purple(text: &str) -> (out: String)
    ensures
        out@ == styled_text(Style::Purple, text@),
{
    text.purple().to_string()
}

/// `owo_colors::OwoColorize::cyan`, displayed: the text between the
/// sequences for cyan foreground and for default foreground.
#[verifier::external_body]
fn cyan(text: &str) -> (out: String)
    ensures
        out@ == styled_text(Style::Cyan, text@),
{
    text.cyan().to_string()
}

/// `owo_colors::OwoColorize::bold`, displayed: the text between the
/// sequence for bold and the sequence that resets all attributes.
#[verifier::external_body]
fn bold(text: &str) -> (out: String)
    ensures
        out@ == styled_text(Style::Bold, text@),
{
    text.bold().to_string()
}

/// `owo_colors::OwoColorize::dimmed`, displayed: the text between the
/// sequence for faint and the sequence that resets all attributes.
#[verifier::external_body]
fn dimmed(text: &str) -> (out: String)
    ensures
        out@ == styled_text(Style::Dimmed, text@),
{
    text.dimmed().to_string()
}

/// `owo_colors::OwoColorize::underline`, displayed: the text between the
/// sequence for underline and the sequence that resets all attributes.
#[verifier::external_body]
fn underline(text: &str) -> (out: String)
    ensures
        out@ == styled_text(Style::Underline, text@),
{
    text.underline().to_string()
}

/// Gives `text` one style.
pub fn paint(style: Style, text: &str) -> (out: String)
    ensures
        out@ == styled_text(style, text@),
{
    match style {
        Style::Red => red(text),
        Style::Green => green(text),
        Style::Yellow => yellow(text),
        Style::Blue => blue(text),
        Style::Purple => purple(text),
        Style::Cyan => cyan(text),
        Style::Bold => bold(text),
        Style::Dimmed => dimmed(text),
        Style::Underline => underline(text),
    }
}

/// Gives `text` two styles, `inner` first and `outer` around it.
pub fn paint_both(outer: Style, inner: Style, text: &str) -> (out: String)
    ensures
        out@ == styled_text(outer, styled_text(inner, text@)),
{
    let first = paint(inner, text);
    paint(outer, first.as_str())
}

} // verus!
