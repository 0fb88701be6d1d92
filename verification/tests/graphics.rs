use retro_graphics::buffer::Upload;
use retro_graphics::graphics::{Layer, LayerFrame, Phase, RetroGraphics};
use retro_graphics::resources::{Release, ResourceManager, Texture};
use retro_graphics::screen::ScreenContext;
use retro_graphics::sprites::SpriteMapContext;
use retro_graphics::tilemap::TileMapContext;

fn atlas() -> Texture {
    Texture { texture: 40, width: 128, height: 128 }
}

fn scene() -> RetroGraphics {
    let mut resources = ResourceManager::new();
    resources.insert_texture(atlas());
    resources.insert_program("sprites", 50);
    resources.insert_program("tilemap", 51);
    let layers = vec![
        Layer::Sprite(SpriteMapContext::new(50, 60, 61, atlas())),
        Layer::TileMap(TileMapContext::new(51, 70, 71, atlas())),
    ];
    RetroGraphics::new(resources, layers)
}

#[test]
fn new_scene_is_active_on_the_starting_surface() {
    let scene = scene();
    assert_eq!(scene.phase, Phase::Active);
    assert_eq!(scene.screen, ScreenContext { screen_px_x: 256, screen_px_y: 224 });
    assert_eq!(scene.layers.len(), 2);
    assert!(scene.can_paint());
}

#[test]
fn layers_are_painted_back_to_front() {
    let mut scene = scene();
    let frames = scene.paint();
    assert_eq!(frames.len(), 2);
    match &frames[0] {
        LayerFrame::TileMap(Some(frame)) => {
            assert_eq!(frame.program, 51);
            assert_eq!(frame.instances, 33 * 29);
            assert_eq!(frame.upload, Upload::Replace);
        }
        other => panic!("the tile layer is drawn first, got {:?}", other),
    }
    match &frames[1] {
        LayerFrame::Sprite(frame) => {
            assert_eq!(frame.program, 50);
            assert_eq!(frame.instances, 1);
            assert_eq!((frame.screen_px_x, frame.screen_px_y), (256, 224));
        }
        other => panic!("the sprite layer is drawn last, got {:?}", other),
    }
    assert_eq!(scene.phase, Phase::Active);
}

#[test]
fn pan_reaches_every_layer() {
    let mut scene = scene();
    scene.set_pan(-12, 345);
    match &scene.layers[0] {
        Layer::Sprite(layer) => assert_eq!((layer.pan_x, layer.pan_y), (-12, 345)),
        other => panic!("unexpected layer {:?}", other),
    }
    match &scene.layers[1] {
        Layer::TileMap(layer) => assert_eq!((layer.map.pan_x, layer.map.pan_y), (-12, 345)),
        other => panic!("unexpected layer {:?}", other),
    }
    let frames = scene.paint();
    match &frames[0] {
        LayerFrame::TileMap(Some(frame)) => assert_eq!((frame.pan_x, frame.pan_y), (228, 345)),
        other => panic!("unexpected frame {:?}", other),
    }
    match &frames[1] {
        LayerFrame::Sprite(frame) => assert_eq!((frame.pan_x, frame.pan_y), (-12, 345)),
        other => panic!("unexpected frame {:?}", other),
    }
}

#[test]
fn set_pan_on_a_layer_keeps_the_rest() {
    let mut layer = Layer::TileMap(TileMapContext::new(1, 2, 3, atlas()));
    layer.set_pan(8, -8);
    match &layer {
        Layer::TileMap(ctx) => {
            assert_eq!((ctx.map.pan_x, ctx.map.pan_y), (8, -8));
            assert_eq!((ctx.map.tiles_x, ctx.map.tiles_y), (30, 26));
            assert_eq!(ctx.map.tiles.len(), 780);
            assert_eq!((ctx.program, ctx.vertex_array, ctx.buffer), (1, 2, 3));
        }
        other => panic!("unexpected layer {:?}", other),
    }
    assert_eq!(layer.destroy(), (2, 3));
}

#[test]
fn destroy_releases_layers_before_resources() {
    let mut scene = scene();
    assert_eq!(
        scene.destroy(),
        vec![
            Release::VertexArray(60),
            Release::Buffer(61),
            Release::VertexArray(70),
            Release::Buffer(71),
            Release::Program(50),
            Release::Program(51),
            Release::Texture(40),
        ]
    );
    assert_eq!(scene.phase, Phase::Destroyed);
    assert!(scene.layers.is_empty());
}

#[test]
fn second_destroy_releases_nothing() {
    let mut scene = scene();
    scene.destroy();
    assert!(scene.destroy().is_empty());
    assert_eq!(scene.phase, Phase::Destroyed);
}

#[test]
fn destroyed_scene_paints_nothing() {
    let mut scene = scene();
    scene.destroy();
    assert!(scene.paint().is_empty());
    scene.layers.push(Layer::Sprite(SpriteMapContext::new(1, 2, 3, atlas())));
    assert!(scene.paint().is_empty());
}

#[test]
fn texture_removed_before_destroy_is_not_released() {
    let mut scene = scene();
    scene.resources.remove_texture(atlas());
    let released = scene.destroy();
    assert!(!released.contains(&Release::Texture(40)));
    assert_eq!(released.len(), 6);
}

#[test]
fn scene_with_an_unpaintable_layer_says_so() {
    let mut scene = scene();
    scene.screen.screen_px_x = -1;
    assert!(!scene.can_paint());
    scene.screen.screen_px_x = 8;
    assert!(scene.can_paint());
    if let Layer::TileMap(layer) = &mut scene.layers[1] {
        layer.map.tiles_x = 31;
    }
    assert!(!scene.can_paint());
    if let Layer::TileMap(layer) = &mut scene.layers[1] {
        layer.map.recalc();
    }
    assert!(scene.can_paint());
}

#[test]
fn tile_layer_with_a_zero_side_is_skipped() {
    let mut scene = scene();
    if let Layer::TileMap(layer) = &mut scene.layers[1] {
        layer.map.tiles_x = 0;
        layer.map.recalc();
    }
    let frames = scene.paint();
    assert_eq!(frames.len(), 2);
    assert!(matches!(frames[0], LayerFrame::TileMap(None)));
    assert!(matches!(frames[1], LayerFrame::Sprite(_)));
}
