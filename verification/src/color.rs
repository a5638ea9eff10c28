//! Colours as four 8-bit channels, and the reading of CSS colour strings.
use vstd::prelude::*;

verus! {

/// Alpha of a fully opaque colour.
pub const OPAQUE: u8 = 255;

/// A colour with 8-bit alpha, red, green and blue channels.
#[derive(Clone, Copy, Debug, PartialEq, Eq, Structural)]
pub struct Color {
    pub a: u8,
    pub r: u8,
    pub g: u8,
    pub b: u8,
}

impl Color {
    /// The colour with the given channels.
    pub open spec fn spec_new(a: u8, r: u8, g: u8, b: u8) -> Color {
        Color { a, r, g, b }
    }

    #[verifier::when_used_as_spec(spec_new)]
    pub fn new(a: u8, r: u8, g: u8, b: u8) -> (c: Color)
        ensures
            c == Color::spec_new(a, r, g, b),
    {
        Color { a, r, g, b }
    }

    /// This colour with its alpha channel replaced.
    pub open spec fn spec_with_alpha(self, a: u8) -> Color {
        Color { a, r: self.r, g: self.g, b: self.b }
    }

    #[verifier::when_used_as_spec(spec_with_alpha)]
    pub fn with_alpha(self, a: u8) -> (c: Color)
        ensures
            c == self.spec_with_alpha(a),
    {
        Color { a, r: self.r, g: self.g, b: self.b }
    }
}

/// What `csscolorparser::parse` makes of a string, read as 8-bit channels in
/// the order red, green, blue, alpha; `None` where the string is no CSS colour.
pub uninterp spec fn css_rgba(text: Seq<char>) -> Option<(u8, u8, u8, u8)>;

/// Parses a CSS colour with `csscolorparser::parse` and rounds its channels
/// to 8 bits with `csscolorparser::Color::to_rgba8`.
///
/// Trusted: the result is `css_rgba` of the text. Nothing is claimed about
/// which strings are colours or which channels they give.
#[verifier::external_body]
pub(crate) fn parse_css(text: &str) -> (rgba: Option<(u8, u8, u8, u8)>)
    ensures
        rgba == css_rgba(text@),
{
    match csscolorparser::parse(text) {
        Ok(c) => {
            let [r, g, b, a] = c.to_rgba8();
            Some((r, g, b, a))
        },
        Err(_) => None,
    }
}

/// The colour that a configuration string stands for: the parsed colour, or
/// `default` where the string is no CSS colour.
pub open spec fn color_of(parsed: Option<(u8, u8, u8, u8)>, default: Color) -> Color {
    match parsed {
        Some((r, g, b, a)) => Color { a, r, g, b },
        None => default,
    }
}

/// Chooses between a parsed colour and the fallback.
pub fn color_or(parsed: Option<(u8, u8, u8, u8)>, default: Color) -> (c: Color)
    ensures
        c == color_of(parsed, default),
{
    match parsed {
        Some((r, g, b, a)) => Color { a, r, g, b },
        None => default,
    }
}

} // verus!
