//! Colors: from a path's paint and opacity to the color of its vertices.
use vstd::prelude::*;

verus! {

/// A vertex color: sRGB with the alpha already multiplied into the three
/// color channels, one byte per channel.
#[derive(Clone, Copy, Debug, PartialEq, Eq, Hash, Structural)]
pub struct Color {
    pub r: u8,
    pub g: u8,
    pub b: u8,
    pub a: u8,
}

impl Color {
    pub fn new(r: u8, g: u8, b: u8, a: u8) -> (c: Color)
        ensures
            c == (Color { r, g, b, a }),
    {
        Color { r, g, b, a }
    }
}

/// What a fill or a stroke is painted with.
#[derive(Clone, Copy, Debug, PartialEq, Eq, Structural)]
pub enum Paint {
    /// A solid color, alpha not yet applied.
    Solid { red: u8, green: u8, blue: u8 },
    /// A gradient or a pattern. Neither is rendered; such a paint falls back
    /// to black.
    Server,
}

impl Paint {
    /// The three color channels that the paint is rendered with.
    pub open spec fn channels(self) -> (u8, u8, u8) {
        match self {
            Paint::Solid { red, green, blue } => (red, green, blue),
            Paint::Server => (0u8, 0u8, 0u8),
        }
    }

    /// The three color channels that the paint is rendered with: its own for
    /// a solid color, black for anything else.
    pub fn rgb(&self) -> (c: (u8, u8, u8))
        ensures
            c == self.channels(),
    {
        match self {
            Paint::Solid { red, green, blue } => (*red, *green, *blue),
            Paint::Server => (0u8, 0u8, 0u8),
        }
    }
}

/// What is known of one channel `out` of a color that came from the channel
/// `channel` by multiplying with `alpha`: full alpha keeps the channel, and
/// zero alpha or a zero channel gives zero.
pub open spec fn scaled_channel(channel: u8, alpha: u8, out: u8) -> bool {
    &&& alpha == 255 ==> out == channel
    &&& (alpha == 0 || channel == 0) ==> out == 0
}

/// `c` is a color that `(red, green, blue)` with straight alpha `alpha` may
/// turn into. The alpha is kept. Under full alpha the channels are kept too,
/// under zero alpha the color is transparent black, and a zero channel stays
/// zero. For other inputs the channels are left open: they come out of a
/// gamma computation whose rounding is not pinned down here.
pub open spec fn premultiplies(red: u8, green: u8, blue: u8, alpha: u8, c: Color) -> bool {
    &&& c.a == alpha
    &&& scaled_channel(red, alpha, c.r)
    &&& scaled_channel(green, alpha, c.g)
    &&& scaled_channel(blue, alpha, c.b)
}

/// Calls `epaint::Color32::from_rgba_unmultiplied` and reads the four bytes of
/// its result.
///
/// Believed of it: the result's alpha is `alpha`; with `alpha == 255` the
/// three channels come back unchanged; with `alpha == 0` the result is
/// transparent black; a channel that is zero stays zero.
#[verifier::external_body]
fn from_rgba_unmultiplied(red: u8, green: u8, blue: u8, alpha: u8) -> (c: Color)
    ensures
        premultiplies(red, green, blue, alpha, c),
{
    let [r, g, b, a] = epaint::Color32::from_rgba_unmultiplied(red, green, blue, alpha).to_array();
    Color { r, g, b, a }
}

/// The vertex color of a path painted with `paint` at opacity `alpha`
/// (0 is transparent, 255 opaque): what `epaint` makes of the paint's
/// channels and that alpha.
///
/// For a translucent paint with a non-zero channel the contract leaves the
/// channel's value open. `epaint` computes it with the standard library's
/// power function, whose precision the standard library documents as varying
/// by platform and version, so the value is not a function of the four bytes
/// that could be given a name here.
pub fn resolve_color(paint: &Paint, alpha: u8) -> (c: Color)
    ensures
        premultiplies(paint.channels().0, paint.channels().1, paint.channels().2, alpha, c),
{
    let (red, green, blue) = paint.rgb();
    from_rgba_unmultiplied(red, green, blue, alpha)
}

/// An opaque paint resolves to its own channels, and a paint that is not a
/// solid color to opaque black.
pub proof fn lemma_opaque_color(paint: Paint, c: Color)
    requires
        premultiplies(paint.channels().0, paint.channels().1, paint.channels().2, 255, c),
    ensures
        paint matches Paint::Solid { red, green, blue } ==> c == (Color {
            r: red,
            g: green,
            b: blue,
            a: 255,
        }),
        paint is Server ==> c == (Color { r: 0, g: 0, b: 0, a: 255 }),
{
}

} // verus!
