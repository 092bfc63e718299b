use vstd::prelude::*;

verus! {

/// A colour whose red, green and blue channels are already multiplied by its
/// alpha channel, as handed to a pixel by the software renderer.
#[derive(Clone, Copy, Debug, PartialEq, Eq, Structural)]
pub struct PremultipliedRgbaColor {
    pub red: u8,
    pub green: u8,
    pub blue: u8,
    pub alpha: u8,
}

/// A pixel in ARGB order with one byte per channel.
#[derive(Clone, Copy, Debug, PartialEq, Eq, Structural)]
pub struct Rgba8Pixel {
    pub a: u8,
    pub r: u8,
    pub g: u8,
    pub b: u8,
}

/// The channel of a pixel after `src` (premultiplied with `alpha`) is drawn
/// over `dst`: the destination keeps the fraction `(255 - alpha) / 255` of
/// itself, rounded down, and the source channel is added.
pub open spec fn over_channel(dst: u8, src: u8, alpha: u8) -> int {
    (dst as int) * (255 - alpha as int) / 255 + src as int
}

/// The colour can be drawn over the pixel without any channel leaving the
/// byte range.
pub open spec fn blend_fits(px: Rgba8Pixel, color: PremultipliedRgbaColor) -> bool {
    &&& over_channel(px.r, color.red, color.alpha) <= 255
    &&& over_channel(px.g, color.green, color.alpha) <= 255
    &&& over_channel(px.b, color.blue, color.alpha) <= 255
}

/// A premultiplied colour never has a channel larger than its alpha.
pub open spec fn is_premultiplied(color: PremultipliedRgbaColor) -> bool {
    &&& color.red <= color.alpha
    &&& color.green <= color.alpha
    &&& color.blue <= color.alpha
}

/// The pixel that results from drawing `color` over `px`.
pub open spec fn blended(px: Rgba8Pixel, color: PremultipliedRgbaColor) -> Rgba8Pixel {
    Rgba8Pixel {
        a: over_channel(px.a, color.alpha, color.alpha) as u8,
        r: over_channel(px.r, color.red, color.alpha) as u8,
        g: over_channel(px.g, color.green, color.alpha) as u8,
        b: over_channel(px.b, color.blue, color.alpha) as u8,
    }
}

proof fn lemma_scaled_channel_bound(x: u8, alpha: u8)
    ensures
        0 <= (x as int) * (255 - alpha as int) / 255 <= 255 - alpha as int,
{
    assert(0 <= (x as int) * (255 - alpha as int)) by (nonlinear_arith)
        requires 0 <= x <= 255, 0 <= alpha <= 255;
    assert((x as int) * (255 - alpha as int) <= 255 * (255 - alpha as int)) by (nonlinear_arith)
        requires 0 <= x <= 255, 0 <= alpha <= 255;
    assert((x as int) * (255 - alpha as int) / 255 <= 255 - alpha as int) by (nonlinear_arith)
        requires
            0 <= (x as int) * (255 - alpha as int) <= 255 * (255 - alpha as int),
    ;
}

/// Scales one channel by `(255 - alpha) / 255` with the integer arithmetic of
/// the renderer.
fn scale_channel(x: u8, inverse_alpha: u16) -> (out: u8)
    requires
        inverse_alpha <= 255,
    ensures
        out as int == (x as int) * (inverse_alpha as int) / 255,
        out as int <= inverse_alpha as int,
{
    proof {
        lemma_scaled_channel_bound(x, (255 - inverse_alpha) as u8);
    }
    assert((x as u16) * inverse_alpha <= 65025) by (nonlinear_arith)
        requires x <= 255, inverse_alpha <= 255;
    ((x as u16) * inverse_alpha / 255) as u8
}

impl Rgba8Pixel {
    /// Creates a pixel from its four channels.
    pub fn new(a: u8, r: u8, g: u8, b: u8) -> (px: Self)
        ensures
            px == (Rgba8Pixel { a, r, g, b }),
    {
        Rgba8Pixel { a, r, g, b }
    }

    /// Draws a premultiplied colour over this pixel ("source over").
    pub fn blend(&mut self, color: PremultipliedRgbaColor)
        requires
            blend_fits(*old(self), color),
        ensures
            *final(self) == blended(*old(self), color),
    {
        let inverse: u16 = (255u8 - color.alpha) as u16;
        let kept_a = scale_channel(self.a, inverse);
        self.a = color.alpha + kept_a;
        let kept_r = scale_channel(self.r, inverse);
        self.r = kept_r + color.red;
        let kept_g = scale_channel(self.g, inverse);
        self.g = kept_g + color.green;
        let kept_b = scale_channel(self.b, inverse);
        self.b = kept_b + color.blue;
    }

    /// An opaque pixel of the given colour.
    pub fn from_rgb(red: u8, green: u8, blue: u8) -> (px: Self)
        ensures
            px == (Rgba8Pixel { a: 255, r: red, g: green, b: blue }),
    {
        Self::new(0xFF, red, green, blue)
    }

    /// The transparent black pixel a canvas starts from.
    pub fn background() -> (px: Self)
        ensures
            px == (Rgba8Pixel { a: 0, r: 0, g: 0, b: 0 }),
    {
        Self::new(0x00, 0, 0, 0)
    }
}

impl Default for Rgba8Pixel {
    /// The pixel with every channel zero.
    fn default() -> (px: Self)
        ensures
            px == (Rgba8Pixel { a: 0, r: 0, g: 0, b: 0 }),
    {
        Rgba8Pixel { a: 0, r: 0, g: 0, b: 0 }
    }
}

/// Drawing a premultiplied colour never overflows a channel, whatever the
/// pixel underneath.
pub proof fn lemma_premultiplied_always_fits(px: Rgba8Pixel, color: PremultipliedRgbaColor)
    requires
        is_premultiplied(color),
    ensures
        blend_fits(px, color),
{
    lemma_scaled_channel_bound(px.r, color.alpha);
    lemma_scaled_channel_bound(px.g, color.alpha);
    lemma_scaled_channel_bound(px.b, color.alpha);
}

/// A fully opaque colour replaces the pixel underneath.
pub proof fn lemma_opaque_color_replaces(px: Rgba8Pixel, color: PremultipliedRgbaColor)
    requires
        color.alpha == 255,
    ensures
        blend_fits(px, color),
        blended(px, color) == (Rgba8Pixel { a: 255, r: color.red, g: color.green, b: color.blue }),
{
    lemma_scaled_channel_bound(px.a, color.alpha);
    lemma_scaled_channel_bound(px.r, color.alpha);
    lemma_scaled_channel_bound(px.g, color.alpha);
    lemma_scaled_channel_bound(px.b, color.alpha);
}

/// The fully transparent colour leaves the pixel unchanged.
pub proof fn lemma_transparent_color_keeps(px: Rgba8Pixel)
    ensures
        blend_fits(px, PremultipliedRgbaColor { red: 0, green: 0, blue: 0, alpha: 0 }),
        blended(px, PremultipliedRgbaColor { red: 0, green: 0, blue: 0, alpha: 0 }) == px,
{
    let c = PremultipliedRgbaColor { red: 0, green: 0, blue: 0, alpha: 0 };
    assert((px.a as int) * 255 / 255 == px.a as int) by (nonlinear_arith);
    assert((px.r as int) * 255 / 255 == px.r as int) by (nonlinear_arith);
    assert((px.g as int) * 255 / 255 == px.g as int) by (nonlinear_arith);
    assert((px.b as int) * 255 / 255 == px.b as int) by (nonlinear_arith);
}

/// Drawing over the opaque pixel keeps it opaque.
pub proof fn lemma_opaque_pixel_stays_opaque(px: Rgba8Pixel, color: PremultipliedRgbaColor)
    requires
        px.a == 255,
    ensures
        blended(px, color).a == 255,
{
    assert((255int) * (255 - color.alpha as int) / 255 == 255 - color.alpha as int) by (nonlinear_arith)
        requires 0 <= color.alpha <= 255;
}

} // verus!
