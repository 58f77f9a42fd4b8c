//! Tile sets and the tile-grid map layers that reference them.

use vstd::prelude::*;
use crate::blend::{BlendMode, LayerBlend};
use crate::raster::{PaletteWithOffset, palette_covers, pitch_spec, source_pixel, valid_depth};

verus! {

/// One tile: its animation frames of packed pixel data, each shown for
/// `frame_ticks` ticks in turn, and the palette of its indexed pixels.
#[derive(Debug)]
pub struct Tile {
    pub frames: Vec<Vec<u8>>,
    pub frame_ticks: usize,
    pub palette: Option<PaletteWithOffset>,
}

#[derive(Debug)]
pub struct TileSet {
    pub tiles: Vec<Tile>,
}

/// A populated map cell: a tile of one of the layer's tile sets.
#[derive(Clone, Copy, Debug, PartialEq, Eq, Structural)]
pub struct TileRef {
    pub tile_set: usize,
    pub tile_index: usize,
}

/// The pixel data that `tile` shows at tick `time`.
pub open spec fn tile_frame(tile: Tile, time: int) -> Seq<u8> {
    tile.frames@[(time / tile.frame_ticks as int) % tile.frames@.len() as int]@
}

impl Tile {
    /// Every frame holds `height` rows of `width` pixels at `depth` bits,
    /// and the palette holds every index the depth can express.
    pub open spec fn wf(self, width: usize, height: usize, depth: usize) -> bool {
        &&& self.frames@.len() >= 1
        &&& self.frame_ticks >= 1
        &&& forall|f: int|
            0 <= f < self.frames@.len() ==> height * pitch_spec(width as int, depth as int)
                <= #[trigger] self.frames@[f]@.len()
        &&& palette_covers(self.palette, depth)
    }

    /// The frame shown at tick `time`.
    pub fn data_for_time(&self, time: usize) -> (r: &Vec<u8>)
        requires
            self.frames@.len() >= 1,
            self.frame_ticks >= 1,
        ensures
            r@ == tile_frame(*self, time as int),
            exists|f: int| 0 <= f < self.frames@.len() && *r == self.frames@[f],
    {
        &self.frames[(time / self.frame_ticks) % self.frames.len()]
    }
}

/// A grid of `width` by `height` cells of `tile_width` by `tile_height`
/// pixels, stored row by row, and how it scrolls and blends.
#[derive(Debug)]
pub struct MapLayer {
    pub width: usize,
    pub height: usize,
    pub tile_width: usize,
    pub tile_height: usize,
    pub tile_depth: usize,
    pub tiles: Vec<Option<TileRef>>,
    pub tile_sets: Vec<TileSet>,
    /// Scroll factor in 1/256 units: 256 scrolls with the view.
    pub parallax_x: i32,
    pub parallax_y: i32,
    /// Scroll per tick in 1/256 pixel units.
    pub auto_scroll_x: i32,
    pub auto_scroll_y: i32,
    pub blend_mode: BlendMode,
    pub alpha: u8,
}

impl MapLayer {
    pub open spec fn wf(self) -> bool {
        &&& self.width >= 1
        &&& self.height >= 1
        &&& self.tile_width >= 1
        &&& self.tile_height >= 1
        &&& valid_depth(self.tile_depth)
        &&& self.alpha < 16
        &&& self.tiles@.len() == self.width * self.height
        &&& self.tile_width * self.width <= usize::MAX
        &&& self.tile_height * self.height <= usize::MAX
        &&& forall|i: int|
            0 <= i < self.tiles@.len() ==> self.cell_wf(#[trigger] self.tiles@[i])
    }

    /// The cell is empty or names a well-formed tile of the layer.
    pub open spec fn cell_wf(self, cell: Option<TileRef>) -> bool {
        match cell {
            Some(r) => r.tile_set < self.tile_sets@.len() && r.tile_index
                < self.tile_sets@[r.tile_set as int].tiles@.len() && self.tile_sets@[
                r.tile_set as int].tiles@[r.tile_index as int].wf(
                self.tile_width,
                self.tile_height,
                self.tile_depth,
            ),
            None => true,
        }
    }

    pub open spec fn tile_of(self, r: TileRef) -> Tile {
        self.tile_sets@[r.tile_set as int].tiles@[r.tile_index as int]
    }

    /// The blend the layer applies to its pixels.
    pub open spec fn layer_blend(self) -> LayerBlend {
        LayerBlend { mode: self.blend_mode, alpha: self.alpha }
    }

    /// The colour the layer shows at world pixel `(wx, wy)` at tick
    /// `time`, or `None` where it is transparent. The grid repeats in
    /// both directions.
    pub open spec fn source_at(self, time: int, wx: int, wy: int) -> Option<u16> {
        let tx = (wx / self.tile_width as int) % self.width as int;
        let ty = (wy / self.tile_height as int) % self.height as int;
        match self.tiles@[ty * self.width + tx] {
            Some(r) => source_pixel(
                self.tile_depth,
                tile_frame(self.tile_of(r), time),
                (wy % self.tile_height as int) * pitch_spec(
                    self.tile_width as int,
                    self.tile_depth as int,
                ),
                wx % self.tile_width as int,
                self.tile_of(r).palette,
            ),
            None => None,
        }
    }

    /// Width of the whole grid in pixels.
    pub open spec fn pixel_width(self) -> int {
        self.tile_width * self.width
    }

    /// Height of the whole grid in pixels.
    pub open spec fn pixel_height(self) -> int {
        self.tile_height * self.height
    }
}

} // verus!
