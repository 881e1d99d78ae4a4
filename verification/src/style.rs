//! Emphasis for labels and names: plain text, or bold white on a terminal.

use vstd::prelude::*;
use vstd::string::*;

verus! {

/// How emphasised text is written.
#[derive(Clone, Copy, Debug, PartialEq, Eq, Structural)]
pub enum Emphasis {
    /// The text as it is, for output that is not a terminal.
    Plain,
    /// Bold white, by ANSI escape sequences.
    Ansi,
}

/// The escape sequence that switches bold white on.
pub open spec fn bold_white_prefix() -> Seq<char> {
    seq!['\u{1b}', '[', '1', ';', '3', '7', 'm']
}

/// The escape sequence that switches all styling off again.
pub open spec fn style_reset() -> Seq<char> {
    seq!['\u{1b}', '[', '0', 'm']
}

/// `text` as it is written under the given emphasis.
pub open spec fn emphasized(text: Seq<char>, emphasis: Emphasis) -> Seq<char> {
    match emphasis {
        Emphasis::Plain => text,
        Emphasis::Ansi => bold_white_prefix() + text + style_reset(),
    }
}

/// Trusted: `ansi_term::Colour::White.bold().paint(text)`, formatted with
/// `{}`.  The crate writes the style's prefix, the text and the style's
/// suffix; for bold white these are `ESC [ 1 ; 3 7 m` and `ESC [ 0 m`.
#[verifier::external_body]
fn paint_bold_white(text: &str) -> (painted: String)
    ensures
        painted@ == bold_white_prefix() + text@ + style_reset(),
{
    format!("{}", ansi_term::Colour::White.bold().paint(text))
}

/// Writes `text` with the given emphasis.
pub fn emphasize(text: &str, emphasis: Emphasis) -> (out: String)
    ensures
        out@ == emphasized(text@, emphasis),
{
    match emphasis {
        Emphasis::Plain => String::from_str(text),
        Emphasis::Ansi => paint_bold_white(text),
    }
}

} // verus!
