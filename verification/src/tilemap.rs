//! The tile layer: a grid of tiles that wraps around at its edges, and the
//! renderer that cuts the visible window out of it for each frame.

use vstd::prelude::*;
use vstd::arithmetic::div_mod::{lemma_fundamental_div_mod_converse, lemma_mod_bound};
use crate::attributes::TileAttributes;
use crate::buffer::{upload_for, watermark_after, Upload, Watermark};
use crate::resources::Texture;
use crate::screen::ScreenContext;

verus! {

/// The layer value that `recalc` gives to every tile.
pub const DEFAULT_LAYER: u8 = 50;

/// Bytes in the instance record of one tile.
pub const TILE_RECORD_BYTES: usize = 8;

/// One cell of the grid. `x` and `y` name a cell of the atlas, not a place on
/// the map.
#[derive(Clone, Copy, Debug, PartialEq, Eq, Structural)]
pub struct Tile {
    pub x: u16,
    pub y: u16,
    pub layer: u8,
    pub attributes: TileAttributes,
}

impl Tile {
    /// The instance record of the tile, as the GPU reads it: `x` and `y` as
    /// two bytes each, low byte first, then the layer, one byte that is always
    /// zero, and the attribute word, low byte first.
    pub open spec fn record(self) -> Seq<u8> {
        seq![
            (self.x % 256) as u8,
            (self.x / 256) as u8,
            (self.y % 256) as u8,
            (self.y / 256) as u8,
            self.layer,
            0u8,
            (self.attributes.0 % 256) as u8,
            (self.attributes.0 / 256) as u8,
        ]
    }

    /// The instance record of the tile.
    pub fn to_bytes(self) -> (bytes: [u8; 8])
        ensures
            bytes@ == self.record(),
    {
        let bytes: [u8; 8] = [
            (self.x % 256) as u8,
            (self.x / 256) as u8,
            (self.y % 256) as u8,
            (self.y / 256) as u8,
            self.layer,
            0u8,
            (self.attributes.0 % 256) as u8,
            (self.attributes.0 / 256) as u8,
        ];
        assert(bytes@ =~= self.record());
        bytes
    }
}

impl Default for Tile {
    /// The tile with every field zero.
    fn default() -> (r: Self)
        ensures
            r == (Tile { x: 0, y: 0, layer: 0, attributes: TileAttributes(0) }),
    {
        Tile { x: 0, y: 0, layer: 0, attributes: TileAttributes(0) }
    }
}

/// The instance records of `tiles`, one after the other.
pub open spec fn tile_records(tiles: Seq<Tile>) -> Seq<u8> {
    Seq::new(tiles.len() * 8, |k: int| tiles[k / 8].record()[k % 8])
}

/// Writes the instance records of `tiles`, one after the other.
pub fn encode_tiles(tiles: &Vec<Tile>) -> (bytes: Vec<u8>)
    ensures
        bytes@ == tile_records(tiles@),
        bytes@.len() == tiles@.len() * 8,
{
    let mut bytes: Vec<u8> = Vec::new();
    let mut i: usize = 0;
    while i < tiles.len()
        invariant
            i <= tiles@.len(),
            bytes@.len() == i * 8,
            forall|k: int| 0 <= k < i * 8 ==> bytes@[k] == tiles@[k / 8].record()[k % 8],
        decreases tiles@.len() - i,
    {
        let record = tiles[i].to_bytes();
        let mut j: usize = 0;
        while j < 8
            invariant
                j <= 8,
                i < tiles@.len(),
                record@ == tiles@[i as int].record(),
                bytes@.len() == i * 8 + j,
                forall|k: int| 0 <= k < i * 8 + j ==> bytes@[k] == tiles@[k / 8].record()[k % 8],
            decreases 8 - j,
        {
            bytes.push(record[j]);
            j = j + 1;
        }
        i = i + 1;
    }
    assert(bytes@ =~= tile_records(tiles@));
    bytes
}

/// A pixel offset brought into the range of a map that is `extent` pixels
/// long and wraps around. An offset that is not negative stays as it is, with
/// no upper bound. A negative offset becomes `extent - (|pan| mod extent)`,
/// which lies in `1 ..= extent`: a negative multiple of the extent becomes the
/// extent itself, not zero.
pub open spec fn normalized_pan(pan: int, extent: int) -> int {
    if pan >= 0 {
        pan
    } else {
        extent - ((-pan) % extent)
    }
}

/// Brings a pixel offset into the range of a map that is `extent` pixels long
/// and wraps around.
pub fn normalize_pan(pan: i32, extent: i32) -> (normalized: i32)
    requires
        extent > 0,
    ensures
        normalized == normalized_pan(pan as int, extent as int),
        normalized >= 0,
        pan < 0 ==> 0 < normalized <= extent,
{
    if pan < 0 {
        proof {
            lemma_mod_bound(-(pan as int), extent as int);
        }
        extent + pan % extent
    } else {
        pan
    }
}

/// A normalized offset is never negative and names the same place on the
/// wrapping map as the offset it came from: the two differ by a multiple of
/// the extent.
pub proof fn lemma_normalized_pan_is_congruent(pan: int, extent: int)
    requires
        extent > 0,
    ensures
        normalized_pan(pan, extent) >= 0,
        normalized_pan(pan, extent) % extent == pan % extent,
{
    if pan < 0 {
        let m = (-pan) % extent;
        lemma_mod_bound(-pan, extent);
        vstd::arithmetic::div_mod::lemma_fundamental_div_mod(-pan, extent);
        let q = (-pan) / extent;
        // pan == -(extent * q + m), so extent - m == pan + extent * (q + 1)
        assert(extent - m == pan + extent * (q + 1)) by (nonlinear_arith)
            requires
                -pan == extent * q + m,
        ;
        vstd::arithmetic::div_mod::lemma_mod_multiples_vanish(q + 1, pan, extent);
    }
}

/// The place in a grid of `tiles_x` by `tiles_y` tiles, stored row by row,
/// of the tile shown in cell (`row`, `col`) of the window when the map is
/// scrolled by whole tiles `pan_tile_x` and `pan_tile_y`. Rows and columns
/// that run past an edge of the grid go on from its other edge.
pub open spec fn wrapped_index(
    tiles_x: int,
    tiles_y: int,
    pan_tile_x: int,
    pan_tile_y: int,
    row: int,
    col: int,
) -> int {
    ((row + pan_tile_y) % tiles_y) * tiles_x + ((col + pan_tile_x) % tiles_x)
}

/// The place in the grid of the tile shown in cell (`row`, `col`) of the
/// window.
pub fn source_index(
    tiles_x: u16,
    tiles_y: u16,
    pan_tile_x: i32,
    pan_tile_y: i32,
    row: i32,
    col: i32,
) -> (index: usize)
    requires
        tiles_x > 0,
        tiles_y > 0,
        0 <= pan_tile_x,
        0 <= pan_tile_y,
        0 <= row,
        0 <= col,
    ensures
        index == wrapped_index(
            tiles_x as int,
            tiles_y as int,
            pan_tile_x as int,
            pan_tile_y as int,
            row as int,
            col as int,
        ),
        index < tiles_x * tiles_y,
{
    let source_row: u64 = ((row as i64 + pan_tile_y as i64) % (tiles_y as i64)) as u64;
    let source_col: u64 = ((col as i64 + pan_tile_x as i64) % (tiles_x as i64)) as u64;
    assert(source_row * tiles_x + source_col < tiles_x * tiles_y) by (nonlinear_arith)
        requires
            0 <= source_row < tiles_y,
            0 <= source_col < tiles_x,
    ;
    assert(tiles_x * tiles_y <= 65535 * 65535) by (nonlinear_arith)
        requires
            0 <= tiles_x <= 65535,
            0 <= tiles_y <= 65535,
    ;
    (source_row * (tiles_x as u64) + source_col) as usize
}

/// A grid of tiles, stored row by row, with the offset in pixels by which it
/// is scrolled. The offset is kept as it was given and may be negative; it is
/// brought into range only when a frame is rendered.
#[derive(Clone, Debug, PartialEq, Eq)]
pub struct TileMap {
    /// Tiles in one row.
    pub tiles_x: u16,
    /// Rows.
    pub tiles_y: u16,
    /// Pixels scrolled horizontally.
    pub pan_x: i32,
    /// Pixels scrolled vertically.
    pub pan_y: i32,
    /// The tiles, `tiles_x * tiles_y` of them.
    pub tiles: Vec<Tile>,
}

impl TileMap {
    /// The grid holds exactly as many tiles as its sides say. A change of a
    /// side breaks this until `recalc` is called.
    pub open spec fn wf(&self) -> bool {
        self.tiles@.len() == self.tiles_x * self.tiles_y
    }

    /// The tiles of a freshly laid out grid of `tiles_x` by `tiles_y`: the
    /// tile at place `i` points at atlas cell (`i % tiles_x`, `i / tiles_x`),
    /// lies on the default layer and has no attribute set.
    pub open spec fn seeded(tiles_x: u16, tiles_y: u16) -> Seq<Tile> {
        Seq::new(
            (tiles_x * tiles_y) as nat,
            |i: int|
                Tile {
                    x: (i % (tiles_x as int)) as u16,
                    y: (i / (tiles_x as int)) as u16,
                    layer: DEFAULT_LAYER,
                    attributes: TileAttributes(0),
                },
        )
    }

    /// Whole tiles scrolled horizontally, after the offset was brought into
    /// range.
    pub open spec fn pan_tile_x(&self) -> int {
        normalized_pan(self.pan_x as int, self.tiles_x * 8) / 8
    }

    /// Whole tiles scrolled vertically, after the offset was brought into
    /// range.
    pub open spec fn pan_tile_y(&self) -> int {
        normalized_pan(self.pan_y as int, self.tiles_y * 8) / 8
    }

    /// The tile shown in cell (`row`, `col`) of the window.
    pub open spec fn visible_tile(&self, row: int, col: int) -> Tile {
        self.tiles@[wrapped_index(
            self.tiles_x as int,
            self.tiles_y as int,
            self.pan_tile_x(),
            self.pan_tile_y(),
            row,
            col,
        )]
    }

    /// The window of `vis_y + 1` rows of `vis_x + 1` tiles, row by row.
    pub open spec fn window(&self, vis_x: int, vis_y: int) -> Seq<Tile> {
        Seq::new(
            ((vis_x + 1) * (vis_y + 1)) as nat,
            |k: int| self.visible_tile(k / (vis_x + 1), k % (vis_x + 1)),
        )
    }

    /// Whether the grid holds exactly as many tiles as its sides say.
    pub fn is_consistent(&self) -> (r: bool)
        ensures
            r == self.wf(),
    {
        assert(self.tiles_x * self.tiles_y <= 65535 * 65535) by (nonlinear_arith)
            requires
                0 <= self.tiles_x <= 65535,
                0 <= self.tiles_y <= 65535,
        ;
        self.tiles.len() == (self.tiles_x as usize) * (self.tiles_y as usize)
    }

    /// Lays the grid out anew for the current sides: the tiles are replaced by
    /// `tiles_x * tiles_y` fresh ones, each pointing at the atlas cell of its
    /// own place. Whatever was set on a tile before is gone. Call it after
    /// every change of a side.
    pub fn recalc(&mut self)
        ensures
            final(self).tiles@ == Self::seeded(old(self).tiles_x, old(self).tiles_y),
            final(self).tiles@.len() == old(self).tiles_x * old(self).tiles_y,
            forall|i: int|
                0 <= i < old(self).tiles_x * old(self).tiles_y ==> {
                    &&& (#[trigger] final(self).tiles@[i]).x == i % (old(self).tiles_x as int)
                    &&& final(self).tiles@[i].y == i / (old(self).tiles_x as int)
                    &&& final(self).tiles@[i].layer == DEFAULT_LAYER
                    &&& final(self).tiles@[i].attributes == TileAttributes(0)
                },
            final(self).tiles_x == old(self).tiles_x,
            final(self).tiles_y == old(self).tiles_y,
            final(self).pan_x == old(self).pan_x,
            final(self).pan_y == old(self).pan_y,
            final(self).wf(),
    {
        let tiles_x: usize = self.tiles_x as usize;
        let tiles_y: usize = self.tiles_y as usize;
        assert(tiles_x * tiles_y <= 65535 * 65535) by (nonlinear_arith)
            requires
                0 <= tiles_x <= 65535,
                0 <= tiles_y <= 65535,
        ;
        let count: usize = tiles_x * tiles_y;
        let mut tiles: Vec<Tile> = Vec::new();
        let mut index: usize = 0;
        while index < count
            invariant
                index <= count,
                count == tiles_x * tiles_y,
                tiles_x == self.tiles_x,
                tiles_y == self.tiles_y,
                tiles@.len() == index,
                forall|i: int|
                    0 <= i < index ==> tiles@[i] == Self::seeded(self.tiles_x, self.tiles_y)[i],
            decreases count - index,
        {
            assert(tiles_x > 0) by (nonlinear_arith)
                requires
                    index < tiles_x * tiles_y,
                    0 <= tiles_x,
            ;
            assert(index / tiles_x < tiles_y) by (nonlinear_arith)
                requires
                    index < tiles_x * tiles_y,
                    0 < tiles_x,
            ;
            tiles.push(
                Tile {
                    x: (index % tiles_x) as u16,
                    y: (index / tiles_x) as u16,
                    layer: DEFAULT_LAYER,
                    attributes: TileAttributes(0),
                },
            );
            index = index + 1;
        }
        assert(tiles@ =~= Self::seeded(self.tiles_x, self.tiles_y));
        assert forall|i: int| 0 <= i < tiles_x * tiles_y implies {
            &&& (#[trigger] tiles@[i]).x == i % (tiles_x as int)
            &&& tiles@[i].y == i / (tiles_x as int)
        } by {
            assert(0 < tiles_x && i / (tiles_x as int) < tiles_y) by (nonlinear_arith)
                requires
                    0 <= i < tiles_x * tiles_y,
                    0 <= tiles_x,
            ;
        }
        self.tiles = tiles;
    }
}

impl TileMap {
    /// The place in the grid of the tile shown in cell (`row`, `col`) of the
    /// window, for the offset the map is scrolled by now.
    pub fn visible_index(&self, row: i32, col: i32) -> (index: usize)
        requires
            self.tiles_x > 0,
            self.tiles_y > 0,
            0 <= row <= 0x1000_0000,
            0 <= col <= 0x1000_0000,
        ensures
            index == wrapped_index(
                self.tiles_x as int,
                self.tiles_y as int,
                self.pan_tile_x(),
                self.pan_tile_y(),
                row as int,
                col as int,
            ),
            index < self.tiles_x * self.tiles_y,
    {
        let pan_x: i32 = normalize_pan(self.pan_x, (self.tiles_x as i32) * 8);
        let pan_y: i32 = normalize_pan(self.pan_y, (self.tiles_y as i32) * 8);
        source_index(self.tiles_x, self.tiles_y, pan_x / 8, pan_y / 8, row, col)
    }

    /// Cuts the window of `vis_y + 1` rows of `vis_x + 1` tiles out of the
    /// grid, row by row, into `out`, whose earlier contents are dropped.
    pub fn fill_window(&self, vis_x: i32, vis_y: i32, out: &mut Vec<Tile>)
        requires
            self.wf(),
            self.tiles_x > 0,
            self.tiles_y > 0,
            0 <= vis_x <= 0x1000_0000,
            0 <= vis_y <= 0x1000_0000,
        ensures
            final(out)@ == self.window(vis_x as int, vis_y as int),
            final(out)@.len() == (vis_x + 1) * (vis_y + 1),
    {
        out.clear();
        let cols: i32 = vis_x + 1;
        let rows: i32 = vis_y + 1;
        let mut row: i32 = 0;
        while row < rows
            invariant
                self.wf(),
                self.tiles_x > 0,
                self.tiles_y > 0,
                cols == vis_x + 1,
                rows == vis_y + 1,
                0 <= vis_x <= 0x1000_0000,
                0 <= vis_y <= 0x1000_0000,
                0 <= row <= rows,
                out@.len() == row * cols,
                forall|k: int|
                    0 <= k < out@.len() ==> out@[k] == self.visible_tile(
                        k / (cols as int),
                        k % (cols as int),
                    ),
            decreases rows - row,
        {
            let mut col: i32 = 0;
            while col < cols
                invariant
                    self.wf(),
                    self.tiles_x > 0,
                    self.tiles_y > 0,
                    cols == vis_x + 1,
                    rows == vis_y + 1,
                    0 <= vis_x <= 0x1000_0000,
                    0 <= vis_y <= 0x1000_0000,
                    0 <= row < rows,
                    0 <= col <= cols,
                    out@.len() == row * cols + col,
                    forall|k: int|
                        0 <= k < out@.len() ==> out@[k] == self.visible_tile(
                            k / (cols as int),
                            k % (cols as int),
                        ),
                decreases cols - col,
            {
                let index = self.visible_index(row, col);
                let tile = self.tiles[index];
                proof {
                    let k = row * cols + col;
                    lemma_fundamental_div_mod_converse(k, cols as int, row as int, col as int);
                }
                out.push(tile);
                col = col + 1;
            }
            proof {
                assert(row * cols + cols == (row + 1) * cols) by (nonlinear_arith);
            }
            row = row + 1;
        }
        proof {
            assert(rows * cols == (vis_x + 1) * (vis_y + 1)) by (nonlinear_arith)
                requires
                    cols == vis_x + 1,
                    rows == vis_y + 1,
            ;
            assert(out@ =~= self.window(vis_x as int, vis_y as int));
        }
    }

    /// In a map that is not scrolled, a window cell that lies inside the grid
    /// shows the tile at the same row and column of the grid: nothing wraps.
    pub proof fn lemma_window_without_wrap(&self, row: int, col: int)
        requires
            self.pan_x == 0,
            self.pan_y == 0,
            0 <= row < self.tiles_y,
            0 <= col < self.tiles_x,
        ensures
            self.visible_tile(row, col) == self.tiles@[row * self.tiles_x + col],
    {
        vstd::arithmetic::div_mod::lemma_small_mod(row as nat, self.tiles_y as nat);
        vstd::arithmetic::div_mod::lemma_small_mod(col as nat, self.tiles_x as nat);
    }

    /// In a freshly laid out map that is not scrolled, a window cell that
    /// lies inside the grid shows the tile that points at the atlas cell of
    /// the same column and row.
    pub proof fn lemma_fresh_window_shows_own_cells(&self, row: int, col: int)
        requires
            self.tiles@ == Self::seeded(self.tiles_x, self.tiles_y),
            self.pan_x == 0,
            self.pan_y == 0,
            0 <= row < self.tiles_y,
            0 <= col < self.tiles_x,
        ensures
            self.visible_tile(row, col).x == col,
            self.visible_tile(row, col).y == row,
    {
        self.lemma_window_without_wrap(row, col);
        let i = row * self.tiles_x + col;
        assert(0 <= i < self.tiles_x * self.tiles_y) by (nonlinear_arith)
            requires
                i == row * self.tiles_x + col,
                0 <= row < self.tiles_y,
                0 <= col < self.tiles_x,
        ;
        lemma_fundamental_div_mod_converse(i, self.tiles_x as int, row, col);
    }

    /// Cell (`row`, `col`) of the window is the element at `row * (vis_x + 1)
    /// + col` of the window's sequence: the window is laid out row by row.
    pub proof fn lemma_window_is_row_major(&self, vis_x: int, vis_y: int, row: int, col: int)
        requires
            0 <= vis_x,
            0 <= vis_y,
            0 <= row <= vis_y,
            0 <= col <= vis_x,
        ensures
            0 <= row * (vis_x + 1) + col < self.window(vis_x, vis_y).len(),
            self.window(vis_x, vis_y)[row * (vis_x + 1) + col] == self.visible_tile(row, col),
    {
        let cols = vis_x + 1;
        let k = row * cols + col;
        assert(0 <= k < cols * (vis_y + 1)) by (nonlinear_arith)
            requires
                k == row * cols + col,
                0 <= row <= vis_y,
                0 <= col < cols,
        ;
        lemma_fundamental_div_mod_converse(k, cols, row, col);
    }
}

impl Default for TileMap {
    /// The empty grid: no tiles, not scrolled.
    fn default() -> (r: Self)
        ensures
            r.tiles_x == 0,
            r.tiles_y == 0,
            r.pan_x == 0,
            r.pan_y == 0,
            r.tiles@ == Seq::<Tile>::empty(),
            r.wf(),
    {
        TileMap { tiles_x: 0, tiles_y: 0, pan_x: 0, pan_y: 0, tiles: Vec::new() }
    }
}

/// What the GPU needs to draw the tile layer for one frame.
#[derive(Debug)]
pub struct TileFrame {
    /// The shader program that draws the layer.
    pub program: u32,
    /// The atlas texture.
    pub texture: u32,
    /// The vertex array of the layer.
    pub vertex_array: u32,
    /// The instance buffer of the layer.
    pub buffer: u32,
    /// Uniform `tiles_x`: tiles in one row of the grid.
    pub tiles_x: i32,
    /// Uniform `tiles_y`: rows of the grid.
    pub tiles_y: i32,
    /// Uniform `tiles_vis_x`: tiles visible horizontally.
    pub tiles_vis_x: i32,
    /// Uniform `tiles_vis_y`: tiles visible vertically.
    pub tiles_vis_y: i32,
    /// Uniform `pan_x`: the horizontal offset in pixels, brought into range.
    pub pan_x: i32,
    /// Uniform `pan_y`: the vertical offset in pixels, brought into range.
    pub pan_y: i32,
    /// Uniform `map_width`: width of the atlas in pixels.
    pub map_width: i32,
    /// Uniform `map_height`: height of the atlas in pixels.
    pub map_height: i32,
    /// How the instance data reaches the buffer.
    pub upload: Upload,
    /// The instance data: the records of the window's tiles, row by row.
    pub data: Vec<u8>,
    /// The number of instances of the quad to draw.
    pub instances: i32,
}

/// The tile layer with its GPU objects: the grid, the atlas it samples and
/// the state its renderer keeps from frame to frame.
#[derive(Debug)]
pub struct TileMapContext {
    /// The grid.
    pub map: TileMap,
    /// The atlas texture.
    pub texture: Texture,
    /// The shader program that draws the layer.
    pub program: u32,
    /// The vertex array of the layer.
    pub vertex_array: u32,
    /// The instance buffer of the layer.
    pub buffer: u32,
    /// The largest byte length uploaded to the instance buffer so far.
    pub last_buffer_size: Watermark,
    /// The window of the frame rendered last.
    pub time_data: Vec<Tile>,
}

impl TileMapContext {
    /// Whether a frame can be rendered for `screen`: the grid holds as many
    /// tiles as its sides say, the surface has no negative side, and the
    /// number of window cells can be handed to a draw call.
    pub open spec fn paintable(&self, screen: &ScreenContext) -> bool {
        &&& self.map.wf()
        &&& screen.wf()
        &&& screen.window_cells() <= i32::MAX
    }

    /// What `paint` does: `self` is the layer before the frame, `after` the
    /// layer after it, `frame` what was handed to the GPU.
    ///
    /// A grid with a side of zero tiles gives no frame and stays as it is.
    /// Otherwise the frame carries the uniforms (the offsets brought into
    /// range), the records of the window as instance data, the upload that
    /// data of this length gets at the watermark, and one instance per window
    /// cell; the layer keeps the window and the raised watermark. The grid,
    /// the texture and the GPU objects never change.
    pub open spec fn paints(
        &self,
        after: &TileMapContext,
        screen: &ScreenContext,
        frame: Option<TileFrame>,
    ) -> bool {
        &&& frame is None <==> (self.map.tiles_x == 0 || self.map.tiles_y == 0)
        &&& frame is None ==> *after == *self
        &&& after.map == self.map
        &&& after.texture == self.texture
        &&& after.program == self.program
        &&& after.vertex_array == self.vertex_array
        &&& after.buffer == self.buffer
        &&& frame matches Some(f) ==> {
            &&& f.program == self.program
            &&& f.texture == self.texture.texture
            &&& f.vertex_array == self.vertex_array
            &&& f.buffer == self.buffer
            &&& f.tiles_x == self.map.tiles_x
            &&& f.tiles_y == self.map.tiles_y
            &&& f.tiles_vis_x == screen.vis_x()
            &&& f.tiles_vis_y == screen.vis_y()
            &&& f.pan_x == normalized_pan(self.map.pan_x as int, self.map.tiles_x * 8)
            &&& f.pan_y == normalized_pan(self.map.pan_y as int, self.map.tiles_y * 8)
            &&& f.map_width == self.texture.width
            &&& f.map_height == self.texture.height
            &&& after.time_data@ == self.map.window(screen.vis_x(), screen.vis_y())
            &&& f.data@ == tile_records(after.time_data@)
            &&& f.data@.len() == screen.window_cells() * 8
            &&& f.upload == upload_for(self.last_buffer_size.bytes as int, f.data@.len() as int)
            &&& after.last_buffer_size.bytes == watermark_after(
                self.last_buffer_size.bytes as int,
                f.data@.len() as int,
            )
            &&& f.instances == screen.window_cells()
        }
    }

    /// The tile layer as it starts: a grid of 30 by 26 tiles, freshly laid
    /// out and not scrolled, nothing uploaded yet.
    pub fn new(program: u32, vertex_array: u32, buffer: u32, texture: Texture) -> (r: Self)
        ensures
            r.program == program,
            r.vertex_array == vertex_array,
            r.buffer == buffer,
            r.texture == texture,
            r.map.tiles_x == 30,
            r.map.tiles_y == 26,
            r.map.pan_x == 0,
            r.map.pan_y == 0,
            r.map.tiles@ == TileMap::seeded(30, 26),
            r.map.wf(),
            r.last_buffer_size.bytes == 0,
            r.time_data@ == Seq::<Tile>::empty(),
    {
        let mut map = TileMap { tiles_x: 30, tiles_y: 26, pan_x: 0, pan_y: 0, tiles: Vec::new() };
        map.recalc();
        TileMapContext {
            map,
            texture,
            program,
            vertex_array,
            buffer,
            last_buffer_size: Watermark::new(),
            time_data: Vec::new(),
        }
    }

    /// The GPU objects that the layer owns and that are to be deleted with
    /// it: its vertex array and its instance buffer.
    pub fn destroy(&self) -> (handles: (u32, u32))
        ensures
            handles == (self.vertex_array, self.buffer),
    {
        (self.vertex_array, self.buffer)
    }

    /// Whether a frame can be rendered for `screen`.
    pub fn can_paint(&self, screen: &ScreenContext) -> (r: bool)
        ensures
            r == self.paintable(screen),
    {
        if !self.map.is_consistent() || !screen.is_valid() {
            return false;
        }
        let cols: i64 = screen.tiles_vis_x() as i64 + 1;
        let rows: i64 = screen.tiles_vis_y() as i64 + 1;
        assert(0 <= cols * rows <= 0x1000_0001 * 0x1000_0001) by (nonlinear_arith)
            requires
                0 <= cols <= 0x1000_0001,
                0 <= rows <= 0x1000_0001,
        ;
        cols * rows <= i32::MAX as i64
    }

    /// Renders one frame of the layer. Nothing is rendered, and nothing
    /// changes, for a grid with a side of zero tiles. Otherwise the window of
    /// `vis_y + 1` rows of `vis_x + 1` tiles is cut out of the grid at the
    /// offset brought into range, and the frame says how to upload and draw
    /// it.
    pub fn paint(&mut self, screen: &ScreenContext) -> (frame: Option<TileFrame>)
        requires
            old(self).paintable(screen),
        ensures
            old(self).paints(final(self), screen, frame),
    {
        if self.map.tiles_x == 0 || self.map.tiles_y == 0 {
            return None;
        }
        let vis_x: i32 = screen.tiles_vis_x();
        let vis_y: i32 = screen.tiles_vis_y();
        let pan_x: i32 = normalize_pan(self.map.pan_x, (self.map.tiles_x as i32) * 8);
        let pan_y: i32 = normalize_pan(self.map.pan_y, (self.map.tiles_y as i32) * 8);
        self.map.fill_window(vis_x, vis_y, &mut self.time_data);
        let data = encode_tiles(&self.time_data);
        let upload = self.last_buffer_size.upload(data.len());
        assert((vis_x + 1) * (vis_y + 1) == screen.window_cells());
        let instances: i32 = (vis_x + 1) * (vis_y + 1);
        Some(
            TileFrame {
                program: self.program,
                texture: self.texture.texture,
                vertex_array: self.vertex_array,
                buffer: self.buffer,
                tiles_x: self.map.tiles_x as i32,
                tiles_y: self.map.tiles_y as i32,
                tiles_vis_x: vis_x,
                tiles_vis_y: vis_y,
                pan_x,
                pan_y,
                map_width: self.texture.width,
                map_height: self.texture.height,
                upload,
                data,
                instances,
            },
        )
    }
}

} // verus!
