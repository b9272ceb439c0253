//! Colors as the window buffer holds them: `0x00RRGGBB`.

use vstd::prelude::*;

verus! {

/// The buffer pixel of the channels `r`, `g` and `b`.
pub open spec fn rgb(r: u8, g: u8, b: u8) -> u32 {
    (r as u32 * 0x10000 + g as u32 * 0x100 + b as u32) as u32
}

/// Packs three channels into a buffer pixel; the top byte is zero.
pub fn from_u8_rgb(r: u8, g: u8, b: u8) -> (p: u32)
    ensures
        p == rgb(r, g, b),
        p as int == r as int * 0x10000 + g as int * 0x100 + b as int,
{
    (r as u32) * 0x10000 + (g as u32) * 0x100 + (b as u32)
}

/// The red, green and blue channels that a CSS color text denotes, if it
/// denotes one.
pub uninterp spec fn css_rgb(text: Seq<char>) -> Option<(u8, u8, u8)>;

/// Relies on `css_color_parser::Color`'s `FromStr`: the channels depend on
/// the text alone, and a text that is empty is refused. The alpha channel is
/// not used.
#[verifier::external_body]
fn parse_css_rgb(text: &str) -> (r: Option<(u8, u8, u8)>)
    ensures
        r == css_rgb(text@),
        text@.len() == 0 ==> r is None,
{
    text.parse::<css_color_parser::Color>().ok().map(|c| (c.r, c.g, c.b))
}

/// The buffer pixel of the channels that `css_rgb` gives, if any.
pub open spec fn css_pixel(text: Seq<char>) -> Option<u32> {
    match css_rgb(text) {
        Some((r, g, b)) => Some(rgb(r, g, b)),
        None => None,
    }
}

/// Parses a CSS color (a name such as `teal`, `#fa0`, `rgb(1, 2, 3)`) into a
/// buffer pixel.
pub fn parse_color(text: &str) -> (r: Option<u32>)
    ensures
        r == css_pixel(text@),
        text@.len() == 0 ==> r is None,
{
    match parse_css_rgb(text) {
        Some((r, g, b)) => Some(from_u8_rgb(r, g, b)),
        None => None,
    }
}

} // verus!
