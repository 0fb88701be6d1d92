use retro_graphics::screen::{tiles_across, ScreenContext, TILE_PIXELS};

#[test]
fn tile_is_eight_pixels() {
    assert_eq!(TILE_PIXELS, 8);
}

#[test]
fn visible_tiles_round_up() {
    assert_eq!(tiles_across(0), 0);
    assert_eq!(tiles_across(1), 1);
    assert_eq!(tiles_across(7), 1);
    assert_eq!(tiles_across(8), 1);
    assert_eq!(tiles_across(9), 2);
    assert_eq!(tiles_across(24), 3);
    assert_eq!(tiles_across(224), 28);
    assert_eq!(tiles_across(256), 32);
    assert_eq!(tiles_across(i32::MAX), 0x1000_0000);
}

#[test]
fn starting_surface() {
    let screen = ScreenContext::new();
    assert_eq!(screen.screen_px_x, 256);
    assert_eq!(screen.screen_px_y, 224);
    assert!(screen.is_valid());
    assert_eq!(screen.tiles_vis_x(), 32);
    assert_eq!(screen.tiles_vis_y(), 28);
}

#[test]
fn negative_side_is_not_valid() {
    assert!(!ScreenContext { screen_px_x: -1, screen_px_y: 8 }.is_valid());
    assert!(!ScreenContext { screen_px_x: 8, screen_px_y: -8 }.is_valid());
    assert!(ScreenContext { screen_px_x: 0, screen_px_y: 0 }.is_valid());
}
