//! The sprite layer: a short list of sprites placed freely on the screen, and
//! the renderer that uploads the whole list each frame.

use vstd::prelude::*;
use crate::attributes::SpriteAttributes;
use crate::buffer::{upload_for, watermark_after, Upload, Watermark};
use crate::resources::Texture;
use crate::screen::ScreenContext;

verus! {

/// Bytes in the instance record of one sprite.
pub const SPRITE_RECORD_BYTES: usize = 8;

/// One sprite. `x` and `y` are its place on the screen in pixels; `tx` and
/// `ty` name a cell of the atlas.
#[derive(Clone, Copy, Debug, PartialEq, Eq, Structural)]
pub struct Sprite {
    pub x: u16,
    pub y: u16,
    pub tx: u8,
    pub ty: u8,
    pub layer: u8,
    pub attribute: SpriteAttributes,
}

impl Sprite {
    /// The instance record of the sprite, as the GPU reads it: `x` and `y` as
    /// two bytes each, low byte first, then `tx`, `ty`, the layer and the
    /// attribute word.
    pub open spec fn record(self) -> Seq<u8> {
        seq![
            (self.x % 256) as u8,
            (self.x / 256) as u8,
            (self.y % 256) as u8,
            (self.y / 256) as u8,
            self.tx,
            self.ty,
            self.layer,
            self.attribute.0,
        ]
    }

    /// The instance record of the sprite.
    pub fn to_bytes(self) -> (bytes: [u8; 8])
        ensures
            bytes@ == self.record(),
    {
        let bytes: [u8; 8] = [
            (self.x % 256) as u8,
            (self.x / 256) as u8,
            (self.y % 256) as u8,
            (self.y / 256) as u8,
            self.tx,
            self.ty,
            self.layer,
            self.attribute.0,
        ];
        assert(bytes@ =~= self.record());
        bytes
    }
}

impl Default for Sprite {
    /// The sprite with every field zero.
    fn default() -> (r: Self)
        ensures
            r == (Sprite { x: 0, y: 0, tx: 0, ty: 0, layer: 0, attribute: SpriteAttributes(0) }),
    {
        Sprite { x: 0, y: 0, tx: 0, ty: 0, layer: 0, attribute: SpriteAttributes(0) }
    }
}

/// The instance records of `sprites`, one after the other, in the order of
/// the list.
pub open spec fn sprite_records(sprites: Seq<Sprite>) -> Seq<u8> {
    Seq::new(sprites.len() * 8, |k: int| sprites[k / 8].record()[k % 8])
}

/// Writes the instance records of `sprites`, one after the other, in the order
/// of the list.
pub fn encode_sprites(sprites: &Vec<Sprite>) -> (bytes: Vec<u8>)
    ensures
        bytes@ == sprite_records(sprites@),
        bytes@.len() == sprites@.len() * 8,
{
    let mut bytes: Vec<u8> = Vec::new();
    let mut i: usize = 0;
    while i < sprites.len()
        invariant
            i <= sprites@.len(),
            bytes@.len() == i * 8,
            forall|k: int| 0 <= k < i * 8 ==> bytes@[k] == sprites@[k / 8].record()[k % 8],
        decreases sprites@.len() - i,
    {
        let record = sprites[i].to_bytes();
        let mut j: usize = 0;
        while j < 8
            invariant
                j <= 8,
                i < sprites@.len(),
                record@ == sprites@[i as int].record(),
                bytes@.len() == i * 8 + j,
                forall|k: int|
                    0 <= k < i * 8 + j ==> bytes@[k] == sprites@[k / 8].record()[k % 8],
            decreases 8 - j,
        {
            bytes.push(record[j]);
            j = j + 1;
        }
        i = i + 1;
    }
    assert(bytes@ =~= sprite_records(sprites@));
    bytes
}

/// The sprite the layer starts with.
pub open spec fn first_sprite() -> Sprite {
    Sprite { x: 10, y: 10, tx: 14, ty: 6, layer: 2, attribute: SpriteAttributes(0b0000_1010) }
}

/// What the GPU needs to draw the sprite layer for one frame.
#[derive(Debug)]
pub struct SpriteFrame {
    /// The shader program that draws the layer.
    pub program: u32,
    /// The atlas texture.
    pub texture: u32,
    /// The vertex array of the layer.
    pub vertex_array: u32,
    /// The instance buffer of the layer.
    pub buffer: u32,
    /// Uniform `map_width`: width of the atlas in pixels.
    pub map_width: i32,
    /// Uniform `map_height`: height of the atlas in pixels.
    pub map_height: i32,
    /// Uniform `screen_px_x`: width of the surface in pixels.
    pub screen_px_x: i32,
    /// Uniform `screen_px_y`: height of the surface in pixels.
    pub screen_px_y: i32,
    /// Uniform `pan_x`: the horizontal offset in pixels, as it was given.
    pub pan_x: i32,
    /// Uniform `pan_y`: the vertical offset in pixels, as it was given.
    pub pan_y: i32,
    /// How the instance data reaches the buffer.
    pub upload: Upload,
    /// The instance data: the records of all sprites, in the order of the
    /// list.
    pub data: Vec<u8>,
    /// The number of instances of the quad to draw.
    pub instances: i32,
}

/// The sprite layer with its GPU objects. The sprites are drawn in the order
/// of the list; nothing sorts them. The offset is used as it is: sprites live
/// on the screen and do not wrap.
#[derive(Clone, Debug)]
pub struct SpriteMapContext {
    /// The sprites, in drawing order.
    pub thing: Vec<Sprite>,
    /// Pixels scrolled horizontally.
    pub pan_x: i32,
    /// Pixels scrolled vertically.
    pub pan_y: i32,
    /// The atlas texture.
    pub texture: Texture,
    /// The shader program that draws the layer.
    pub program: u32,
    /// The vertex array of the layer.
    pub vertex_array: u32,
    /// The instance buffer of the layer.
    pub buffer: u32,
    /// The largest byte length uploaded to the instance buffer so far.
    pub last_buffer_size: Watermark,
}

impl SpriteMapContext {
    /// Whether a frame can be rendered: the number of sprites can be handed
    /// to a draw call.
    pub open spec fn paintable(&self) -> bool {
        self.thing@.len() <= i32::MAX
    }

    /// What `paint` does: `self` is the layer before the frame, `after` the
    /// layer after it, `frame` what was handed to the GPU.
    ///
    /// The frame carries the uniforms (the offsets as they were given), the
    /// records of all sprites as instance data, the upload that data of this
    /// length gets at the watermark, and one instance per sprite; the layer
    /// keeps the raised watermark and is otherwise unchanged.
    pub open spec fn paints(
        &self,
        after: &SpriteMapContext,
        screen: &ScreenContext,
        frame: SpriteFrame,
    ) -> bool {
        &&& after.thing == self.thing
        &&& after.pan_x == self.pan_x
        &&& after.pan_y == self.pan_y
        &&& after.texture == self.texture
        &&& after.program == self.program
        &&& after.vertex_array == self.vertex_array
        &&& after.buffer == self.buffer
        &&& frame.program == self.program
        &&& frame.texture == self.texture.texture
        &&& frame.vertex_array == self.vertex_array
        &&& frame.buffer == self.buffer
        &&& frame.map_width == self.texture.width
        &&& frame.map_height == self.texture.height
        &&& frame.screen_px_x == screen.screen_px_x
        &&& frame.screen_px_y == screen.screen_px_y
        &&& frame.pan_x == self.pan_x
        &&& frame.pan_y == self.pan_y
        &&& frame.data@ == sprite_records(self.thing@)
        &&& frame.upload == upload_for(
            self.last_buffer_size.bytes as int,
            (self.thing@.len() * 8) as int,
        )
        &&& after.last_buffer_size.bytes == watermark_after(
            self.last_buffer_size.bytes as int,
            (self.thing@.len() * 8) as int,
        )
        &&& frame.instances == self.thing@.len()
    }

    /// The sprite layer as it starts: one sprite, not scrolled, nothing
    /// uploaded yet.
    pub fn new(program: u32, vertex_array: u32, buffer: u32, texture: Texture) -> (r: Self)
        ensures
            r.program == program,
            r.vertex_array == vertex_array,
            r.buffer == buffer,
            r.texture == texture,
            r.pan_x == 0,
            r.pan_y == 0,
            r.thing@ == seq![first_sprite()],
            r.last_buffer_size.bytes == 0,
            r.paintable(),
    {
        let mut thing: Vec<Sprite> = Vec::new();
        thing.push(
            Sprite {
                x: 10,
                y: 10,
                tx: 14,
                ty: 6,
                layer: 2,
                attribute: SpriteAttributes(0b0000_1010),
            },
        );
        assert(thing@ =~= seq![first_sprite()]);
        SpriteMapContext {
            thing,
            pan_x: 0,
            pan_y: 0,
            texture,
            program,
            vertex_array,
            buffer,
            last_buffer_size: Watermark::new(),
        }
    }

    /// The GPU objects that the layer owns and that are to be deleted with
    /// it: its vertex array and its instance buffer.
    pub fn destroy(&self) -> (handles: (u32, u32))
        ensures
            handles == (self.vertex_array, self.buffer),
    {
        (self.vertex_array, self.buffer)
    }

    /// Whether a frame can be rendered.
    pub fn can_paint(&self) -> (r: bool)
        ensures
            r == self.paintable(),
    {
        self.thing.len() <= i32::MAX as usize
    }

    /// Renders one frame of the layer: all sprites, in the order of the list,
    /// with the offset as it was given.
    pub fn paint(&mut self, screen: &ScreenContext) -> (frame: SpriteFrame)
        requires
            old(self).paintable(),
        ensures
            old(self).paints(final(self), screen, frame),
    {
        let data = encode_sprites(&self.thing);
        let upload = self.last_buffer_size.upload(data.len());
        SpriteFrame {
            program: self.program,
            texture: self.texture.texture,
            vertex_array: self.vertex_array,
            buffer: self.buffer,
            map_width: self.texture.width,
            map_height: self.texture.height,
            screen_px_x: screen.screen_px_x,
            screen_px_y: screen.screen_px_y,
            pan_x: self.pan_x,
            pan_y: self.pan_y,
            upload,
            data,
            instances: self.thing.len() as i32,
        }
    }
}

} // verus!
