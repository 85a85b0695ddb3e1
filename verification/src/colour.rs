//! Colours as the painter takes them.

use vstd::prelude::*;

verus! {

/// A colour in four bytes: red, green and blue, each already multiplied by
/// the opacity, and the opacity.
#[derive(Clone, Copy, Debug, PartialEq, Eq, Structural)]
pub struct Rgba {
    pub r: u8,
    pub g: u8,
    pub b: u8,
    pub a: u8,
}

impl Rgba {
    /// A colour without transparency.
    pub fn opaque(r: u8, g: u8, b: u8) -> (c: Rgba)
        ensures
            c == (Rgba { r, g, b, a: 255 }),
    {
        Rgba { r, g, b, a: 255 }
    }

    /// What is painted where nothing is to be seen.
    pub fn transparent() -> (c: Rgba)
        ensures
            c == (Rgba { r: 0, g: 0, b: 0, a: 0 }),
    {
        Rgba { r: 0, g: 0, b: 0, a: 0 }
    }

    /// The disc of a marker.
    pub fn white() -> (c: Rgba)
        ensures
            c == (Rgba { r: 255, g: 255, b: 255, a: 255 }),
    {
        Rgba::opaque(255, 255, 255)
    }

    /// The rim of a marker that a search has found.
    pub fn light_red() -> (c: Rgba)
        ensures
            c == (Rgba { r: 255, g: 128, b: 128, a: 255 }),
    {
        Rgba::opaque(255, 128, 128)
    }

    /// The rim of any other marker.
    pub fn light_gray() -> (c: Rgba)
        ensures
            c == (Rgba { r: 220, g: 220, b: 220, a: 255 }),
    {
        Rgba::opaque(220, 220, 220)
    }
}

/// Whether a text has the shape of a colour: a hash sign, and after it
/// three, four, six or eight characters.
pub open spec fn colour_shaped(hex: Seq<char>) -> bool {
    &&& hex.len() > 0 && hex[0] == '#'
    &&& (hex.len() == 4 || hex.len() == 5 || hex.len() == 7 || hex.len() == 9)
}

/// Whether a text has the shape of a colour that is written without its
/// opacity: a hash sign, and after it three or six characters.
pub open spec fn opaque_shaped(hex: Seq<char>) -> bool {
    hex.len() > 0 && hex[0] == '#' && (hex.len() == 4 || hex.len() == 7)
}

/// The colour that a text names which is written without opacity, as `#rgb`
/// or `#rrggbb`; none where the text names no colour.
pub uninterp spec fn opaque_hex(hex: Seq<char>) -> Option<Rgba>;

/// Reads a colour written as `#rgb`, `#rgba`, `#rrggbb` or `#rrggbbaa`, with
/// `egui::Color32::from_hex`. Claimed of it: it reads nothing that does not
/// start with a hash sign, and nothing that has not three, four, six or
/// eight characters after it; a colour that is written with three or six is
/// opaque, and is made of whole numbers only, so that the text alone tells
/// it: the contract gives that outcome its name. Which characters are taken
/// for digits, and the bytes of a translucent colour, which come out of
/// floating-point tables, are left open.
#[verifier::external_body]
fn parse_hex(hex: &str) -> (r: Option<Rgba>)
    ensures
        r is Some ==> colour_shaped(hex@),
        opaque_shaped(hex@) ==> r == opaque_hex(hex@),
        r is Some && opaque_shaped(hex@) ==> r->0.a == 255,
{
    match egui::Color32::from_hex(hex) {
        Ok(colour) => {
            let [r, g, b, a] = colour.to_array();
            Some(Rgba { r, g, b, a })
        },
        Err(_) => None,
    }
}

/// The colour that was read, or the transparent one where none could be
/// read.
pub fn colour_or_default(parsed: Option<Rgba>) -> (c: Rgba)
    ensures
        c == match parsed {
            Some(colour) => colour,
            None => Rgba { r: 0, g: 0, b: 0, a: 0 },
        },
{
    match parsed {
        Some(colour) => colour,
        None => Rgba::transparent(),
    }
}

/// The colour that a university's line and the base point are painted in:
/// the one its hex string names, or the transparent one where the string
/// names no colour. A string that has not the shape of a colour names none;
/// one that is written without opacity names an opaque colour, if any.
pub fn colour_of(hex: &str) -> (c: Rgba)
    ensures
        !colour_shaped(hex@) ==> c == (Rgba { r: 0, g: 0, b: 0, a: 0 }),
        opaque_shaped(hex@) ==> c == match opaque_hex(hex@) {
            Some(colour) => colour,
            None => Rgba { r: 0, g: 0, b: 0, a: 0 },
        },
        opaque_shaped(hex@) ==> c.a == 255 || c == (Rgba { r: 0, g: 0, b: 0, a: 0 }),
{
    colour_or_default(parse_hex(hex))
}

} // verus!
