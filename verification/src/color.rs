//! ARGB colors (8 bits per channel, alpha in the top byte) and the exact
//! alpha-blending rule used by the rasterizer.

use vstd::prelude::*;

verus! {

/// A packed ARGB color: `0xAARRGGBB`.
#[derive(Clone, Copy, Debug, PartialEq, Eq, Structural)]
pub struct Color(pub u32);

/// The alpha channel of a packed ARGB value.
pub open spec fn alpha_of(c: u32) -> u32 {
    (c >> 24) & 0xFF
}

/// Source-over blend of `src` onto `dst`, per channel:
/// `out = (src * sa + dst * (255 - sa)) / 255`, with the output alpha forced
/// to opaque. `sa == 0` leaves `dst` untouched and `sa == 255` replaces it.
pub open spec fn blend_spec(dst: u32, src: u32) -> u32 {
    let sa = (src >> 24) & 0xFF;
    if sa == 0 {
        dst
    } else if sa == 255 {
        src
    } else {
        let sr = (src >> 16) & 0xFF;
        let sg = (src >> 8) & 0xFF;
        let sb = src & 0xFF;
        let dr = (dst >> 16) & 0xFF;
        let dg = (dst >> 8) & 0xFF;
        let db = dst & 0xFF;
        let inv_sa = (255 - sa) as u32;
        let out_r = (((sr * sa) + (dr * inv_sa)) as u32) / 255;
        let out_g = (((sg * sa) + (dg * inv_sa)) as u32) / 255;
        let out_b = (((sb * sa) + (db * inv_sa)) as u32) / 255;
        0xFF000000u32 | (out_r << 16) | (out_g << 8) | out_b
    }
}

impl Color {
    pub fn new(argb: u32) -> (c: Color)
        ensures
            c.0 == argb,
    {
        Color(argb)
    }

    /// The alpha channel, `0` (fully transparent) to `255` (opaque).
    pub fn alpha(&self) -> (a: u32)
        ensures
            a == alpha_of(self.0),
            a <= 255,
    {
        let v = self.0;
        proof {
            assert((v >> 24) & 0xFF <= 255) by (bit_vector);
        }
        (v >> 24) & 0xFF
    }

    /// The packed ARGB value.
    pub fn as_u32(&self) -> (v: u32)
        ensures
            v == self.0,
    {
        self.0
    }
}

/// A source alpha of 255 makes the blend a plain overwrite.
pub proof fn lemma_blend_opaque(dst: u32, src: u32)
    requires
        alpha_of(src) == 255,
    ensures
        blend_spec(dst, src) == src,
{
}

/// A source alpha of 0 makes the blend a no-op.
pub proof fn lemma_blend_transparent(dst: u32, src: u32)
    requires
        alpha_of(src) == 0,
    ensures
        blend_spec(dst, src) == dst,
{
}

} // verus!
