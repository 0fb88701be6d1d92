//! The drawing surface that every layer renders to.

use vstd::prelude::*;

verus! {

/// Edge of a tile, in pixels.
pub const TILE_PIXELS: i32 = 8;

/// The number of whole or partial tiles that cover `pixels` pixels along one
/// axis: `pixels / 8`, rounded up.
pub open spec fn visible_tiles(pixels: int) -> int {
    (pixels + 7) / 8
}

/// Size of the drawing surface, in pixels. All layers of one frame share it.
#[derive(Clone, Copy, Debug, PartialEq, Eq, Structural)]
pub struct ScreenContext {
    pub screen_px_x: i32,
    pub screen_px_y: i32,
}

impl ScreenContext {
    /// A surface has no negative side.
    pub open spec fn wf(&self) -> bool {
        0 <= self.screen_px_x && 0 <= self.screen_px_y
    }

    /// Tiles visible along the horizontal axis.
    pub open spec fn vis_x(&self) -> int {
        visible_tiles(self.screen_px_x as int)
    }

    /// Tiles visible along the vertical axis.
    pub open spec fn vis_y(&self) -> int {
        visible_tiles(self.screen_px_y as int)
    }

    /// Cells of the tile window: one more column and one more row than are
    /// visible, so that a partly scrolled tile at the far edge is covered.
    pub open spec fn window_cells(&self) -> int {
        (self.vis_x() + 1) * (self.vis_y() + 1)
    }

    /// The surface the scene starts with: 256 by 224 pixels.
    pub fn new() -> (r: Self)
        ensures
            r == (ScreenContext { screen_px_x: 256, screen_px_y: 224 }),
            r.wf(),
    {
        ScreenContext { screen_px_x: 256, screen_px_y: 224 }
    }

    /// Whether neither side is negative.
    pub fn is_valid(&self) -> (r: bool)
        ensures
            r == self.wf(),
    {
        0 <= self.screen_px_x && 0 <= self.screen_px_y
    }

    /// Tiles visible along the horizontal axis.
    pub fn tiles_vis_x(&self) -> (r: i32)
        requires
            self.wf(),
        ensures
            r == self.vis_x(),
            0 <= r <= 0x1000_0000,
    {
        tiles_across(self.screen_px_x)
    }

    /// Tiles visible along the vertical axis.
    pub fn tiles_vis_y(&self) -> (r: i32)
        requires
            self.wf(),
        ensures
            r == self.vis_y(),
            0 <= r <= 0x1000_0000,
    {
        tiles_across(self.screen_px_y)
    }
}

/// The number of whole or partial tiles that cover `pixels` pixels.
pub fn tiles_across(pixels: i32) -> (r: i32)
    requires
        0 <= pixels,
    ensures
        r == visible_tiles(pixels as int),
        0 <= r <= 0x1000_0000,
{
    if pixels % TILE_PIXELS == 0 {
        pixels / TILE_PIXELS
    } else {
        pixels / TILE_PIXELS + 1
    }
}

} // verus!
