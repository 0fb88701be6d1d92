use retro_graphics::attributes::SpriteAttributes;
use retro_graphics::buffer::Upload;
use retro_graphics::resources::Texture;
use retro_graphics::screen::ScreenContext;
use retro_graphics::sprites::{encode_sprites, Sprite, SpriteMapContext, SPRITE_RECORD_BYTES};

fn atlas() -> Texture {
    Texture { texture: 5, width: 256, height: 128 }
}

#[test]
fn new_sprite_layer_has_one_sprite() {
    let ctx = SpriteMapContext::new(1, 2, 3, atlas());
    assert_eq!(
        ctx.thing,
        vec![Sprite { x: 10, y: 10, tx: 14, ty: 6, layer: 2, attribute: SpriteAttributes(0b0000_1010) }]
    );
    assert_eq!((ctx.pan_x, ctx.pan_y), (0, 0));
    assert_eq!(ctx.last_buffer_size.bytes, 0);
    assert!(ctx.can_paint());
    assert_eq!(ctx.destroy(), (2, 3));
}

#[test]
fn sprite_record_bytes() {
    let sprite = Sprite { x: 0x0102, y: 0xfffe, tx: 7, ty: 8, layer: 9, attribute: SpriteAttributes(0xa5) };
    assert_eq!(sprite.to_bytes(), [0x02, 0x01, 0xfe, 0xff, 7, 8, 9, 0xa5]);
    assert_eq!(Sprite::default().to_bytes(), [0; 8]);
    assert_eq!(SPRITE_RECORD_BYTES, 8);
}

#[test]
fn encoded_sprites_keep_list_order() {
    let sprites = vec![
        Sprite { x: 3, y: 2, tx: 1, ty: 0, layer: 9, attribute: SpriteAttributes(1) },
        Sprite { x: 1, y: 2, tx: 3, ty: 4, layer: 1, attribute: SpriteAttributes(2) },
    ];
    assert_eq!(encode_sprites(&sprites), vec![3, 0, 2, 0, 1, 0, 9, 1, 1, 0, 2, 0, 3, 4, 1, 2]);
}

#[test]
fn paint_uploads_all_sprites_with_raw_pan() {
    let mut ctx = SpriteMapContext::new(21, 22, 23, atlas());
    ctx.pan_x = -5;
    ctx.pan_y = 100_000;
    let screen = ScreenContext { screen_px_x: 256, screen_px_y: 224 };
    let frame = ctx.paint(&screen);
    assert_eq!((frame.program, frame.vertex_array, frame.buffer, frame.texture), (21, 22, 23, 5));
    assert_eq!((frame.map_width, frame.map_height), (256, 128));
    assert_eq!((frame.screen_px_x, frame.screen_px_y), (256, 224));
    assert_eq!((frame.pan_x, frame.pan_y), (-5, 100_000));
    assert_eq!(frame.instances, 1);
    assert_eq!(frame.data, vec![10, 0, 10, 0, 14, 6, 2, 0b0000_1010]);
    assert_eq!(frame.upload, Upload::Replace);
    assert_eq!(ctx.last_buffer_size.bytes, 8);
}

#[test]
fn paint_grows_only_when_the_list_grows() {
    let mut ctx = SpriteMapContext::new(1, 2, 3, atlas());
    let screen = ScreenContext::new();
    assert_eq!(ctx.paint(&screen).upload, Upload::Replace);
    assert_eq!(ctx.paint(&screen).upload, Upload::InPlace);
    ctx.thing.push(Sprite::default());
    ctx.thing.push(Sprite::default());
    let frame = ctx.paint(&screen);
    assert_eq!(frame.upload, Upload::Replace);
    assert_eq!(frame.instances, 3);
    assert_eq!(ctx.last_buffer_size.bytes, 24);
    ctx.thing.clear();
    let frame = ctx.paint(&screen);
    assert_eq!(frame.upload, Upload::InPlace);
    assert_eq!(frame.instances, 0);
    assert!(frame.data.is_empty());
    assert_eq!(ctx.last_buffer_size.bytes, 24);
}
