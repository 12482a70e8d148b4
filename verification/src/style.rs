//! Terminal colours for the text that is shown to the user.
//!
//! The colouring itself is done by the `colored` crate. Whether it emits
//! escape sequences at all depends on the process environment, so the
//! contracts here name both outcomes.

use colored::Colorize;
use vstd::prelude::*;

verus! {

/// The escape character that starts every colour sequence.
pub open spec fn escape() -> char {
    '\x1b'
}

/// The sequence that switches all colours off.
pub open spec fn reset_code() -> Seq<char> {
    seq![escape(), '[', '0', 'm']
}

/// The sequence that switches the foreground to blue.
pub open spec fn blue_code() -> Seq<char> {
    seq![escape(), '[', '3', '4', 'm']
}

/// The sequence that switches the foreground to red.
pub open spec fn red_code() -> Seq<char> {
    seq![escape(), '[', '3', '1', 'm']
}

/// `text` with `code` inserted behind every reset sequence that it holds, so
/// that a colour put around `text` comes back after each of them.
pub open spec fn resumed_after_resets(text: Seq<char>, code: Seq<char>) -> Seq<char>
    decreases text.len(),
{
    if text.len() < 4 {
        text
    } else if text.subrange(0, 4) == reset_code() {
        reset_code() + code + resumed_after_resets(text.skip(4), code)
    } else {
        seq![text[0]] + resumed_after_resets(text.skip(1), code)
    }
}

/// `text` as it is written when colours are on: the colour's code, the text
/// with the colour resumed after inner resets, and a final reset.
pub open spec fn painted(code: Seq<char>, text: Seq<char>) -> Seq<char> {
    code + resumed_after_resets(text, code) + reset_code()
}

/// What a colouring call may hand back for `text`: the text itself where
/// colours are off, the painted text where they are on.
pub open spec fn shown_as(shown: Seq<char>, code: Seq<char>, text: Seq<char>) -> bool {
    shown == text || shown == painted(code, text)
}

/// Text without an escape character holds no reset sequence, so painting it
/// only puts the colour's code in front and a reset behind.
pub proof fn lemma_plain_text_painted(code: Seq<char>, text: Seq<char>)
    requires
        !text.contains(escape()),
    ensures
        resumed_after_resets(text, code) == text,
        painted(code, text) == code + text + reset_code(),
    decreases text.len(),
{
    if text.len() >= 4 {
        assert(text[0] != escape());
        lemma_plain_text_painted(code, text.skip(1));
    }
}

/// Colours `text` blue with `colored::Colorize::blue` and formats the
/// `ColoredString` that comes back. Not proved, but taken from the source of
/// `colored`: its `Display` writes the text unchanged where colours are
/// switched off for the process, and otherwise the blue code, the text with
/// the code put in again behind each reset sequence, and a reset. Which of
/// the two it is depends on the environment and on whether standard output
/// is a terminal. The switch is read more than once while the text is
/// formatted: the contract takes it that nothing turns it over meanwhile,
/// and this crate never touches it.
#[verifier::external_body]
pub(crate) fn paint_blue(text: &str) -> (shown: String)
    ensures
        shown_as(shown@, blue_code(), text@),
{
    text.blue().to_string()
}

/// Colours `text` red with `colored::Colorize::red` and formats the
/// `ColoredString` that comes back. Not proved, but taken from the source of
/// `colored`, as for [`paint_blue`]: the text unchanged where colours are
/// switched off for the process, and otherwise the red code, the text with
/// the code put in again behind each reset sequence, and a reset.
#[verifier::external_body]
pub(crate) fn paint_red(text: &str) -> (shown: String)
    ensures
        shown_as(shown@, red_code(), text@),
{
    text.red().to_string()
}

} // verus!
