//! The desktop background: a solid-color rectangle.

use vstd::prelude::*;

use crate::colors;
use crate::geometry::{Rect, Size};
use crate::glass::{solid_rect_layer, solid_rect_pixel, GlassRenderer};

verus! {

/// The desktop wallpaper: a color and the area it covers.
#[derive(Clone, Copy, Debug)]
pub struct Wallpaper {
    /// Fill color, packed ARGB.
    pub color: u32,
    /// Covered area as `(x, y, width, height)`.
    pub bounds: (u32, u32, u32, u32),
}

impl Wallpaper {
    /// A full-screen wallpaper in the default color.
    pub fn new(width: u32, height: u32) -> (w: Wallpaper)
        ensures
            w.color == colors::WALLPAPER_COLOR,
            w.bounds == (0u32, 0u32, width, height),
    {
        Wallpaper { color: colors::WALLPAPER_COLOR, bounds: (0, 0, width, height) }
    }

    /// A wallpaper covering a custom area (for example, excluding a bar).
    pub fn with_bounds(x: u32, y: u32, width: u32, height: u32) -> (w: Wallpaper)
        ensures
            w.color == colors::WALLPAPER_COLOR,
            w.bounds == (x, y, width, height),
    {
        Wallpaper { color: colors::WALLPAPER_COLOR, bounds: (x, y, width, height) }
    }

    /// Changes the wallpaper color.
    pub fn set_color(&mut self, color: u32)
        ensures
            final(self).color == color,
            final(self).bounds == old(self).bounds,
    {
        self.color = color;
    }

    /// The whole buffer after drawing this wallpaper.
    pub open spec fn draw_spec(self, pre: Seq<u32>, size: Size) -> Seq<u32> {
        solid_rect_layer(
            pre,
            size,
            Rect {
                x: self.bounds.0 as i32,
                y: self.bounds.1 as i32,
                width: self.bounds.2,
                height: self.bounds.3,
            },
            self.color,
        )
    }

    /// Fills the wallpaper's area with its color, clipped to the buffer.
    pub fn draw(&self, buffer: &mut Vec<u32>, size: Size)
        requires
            self.bounds.0 < 0x8000_0000,
            self.bounds.1 < 0x8000_0000,
            self.bounds.2 < 0x8000_0000,
            self.bounds.3 < 0x8000_0000,
            size.width < 0x8000_0000,
            size.height < 0x8000_0000,
        ensures
            final(buffer)@ == self.draw_spec(old(buffer)@, size),
            final(buffer).len() == old(buffer).len(),
            forall|i: int|
                0 <= i < final(buffer).len() ==> final(buffer)[i] == solid_rect_pixel(
                    old(buffer)@,
                    (Rect {
                        x: self.bounds.0 as i32,
                        y: self.bounds.1 as i32,
                        width: self.bounds.2,
                        height: self.bounds.3,
                    }),
                    size,
                    self.color,
                    i,
                ),
    {
        let rect = Rect {
            x: self.bounds.0 as i32,
            y: self.bounds.1 as i32,
            width: self.bounds.2,
            height: self.bounds.3,
        };
        GlassRenderer::fill_rect_solid(buffer, size, rect, self.color);
        proof {
            assert(buffer@ =~= self.draw_spec(old(buffer)@, size));
        }
    }
}

} // verus!
