//! Coloured text, as the `colored` crate represents it.

use vstd::prelude::*;
use colored::{Color, ColoredString, Colorize};
use crate::emphasis::TextColor;

verus! {

/// `colored::ColoredString`: a text together with the colours and the style
/// in which a terminal is to show it. Its contents are not visible to proofs.
#[verifier::external_type_specification]
#[verifier::external_body]
pub struct ExColoredString(ColoredString);

/// The coloured string that `colored` makes of `text` with the foreground
/// colour `color` and nothing else set.
pub uninterp spec fn painted(text: Seq<char>, color: TextColor) -> ColoredString;

/// Calls `colored::Colorize::color` on `text`, with the variant of
/// `colored::Color` that has the name of `color`. Trusted: the result is a
/// value that depends on the text and the colour alone. (For a string slice the
/// call copies the text into a fresh `ColoredString`, sets its foreground colour
/// and leaves the background and the style at their defaults.)
#[verifier::external_body]
pub(crate) fn paint(text: &str, color: TextColor) -> (line: ColoredString)
    ensures
        line == painted(text@, color),
{
    let foreground = match color {
        TextColor::Blue => Color::Blue,
        TextColor::Green => Color::Green,
        TextColor::Red => Color::Red,
    };
    text.color(foreground)
}

} // verus!
