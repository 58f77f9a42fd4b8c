use tile_render::actor::ActorInfo;
use tile_render::blend::BlendMode;
use tile_render::frame::{render_frame, GameMap, GameState};
use tile_render::raster::{Palette, PaletteWithOffset};
use tile_render::render::{render_layer, render_sprite, RenderSize};
use tile_render::sprite::{Sprite, SpriteAnimation};
use tile_render::tiles::{MapLayer, Tile, TileRef, TileSet};

fn palette() -> Option<PaletteWithOffset> {
    let entries: Vec<u16> = (0..256u16).map(|i| 100 + i).collect();
    Some(PaletteWithOffset { palette: Palette { entries }, offset: 0 })
}

/// An 8-bit tile of `w` by `h` pixels, each frame one palette index.
fn solid_tile(w: usize, h: usize, frame_indices: &[u8], frame_ticks: usize) -> Tile {
    Tile {
        frames: frame_indices.iter().map(|&i| vec![i; w * h]).collect(),
        frame_ticks,
        palette: palette(),
    }
}

fn layer(width: usize, height: usize, tw: usize, th: usize, tiles: Vec<Tile>) -> MapLayer {
    let n = tiles.len();
    MapLayer {
        width,
        height,
        tile_width: tw,
        tile_height: th,
        tile_depth: 8,
        tiles: (0..width * height).map(|i| Some(TileRef { tile_set: 0, tile_index: i % n })).collect(),
        tile_sets: vec![TileSet { tiles }],
        parallax_x: 256,
        parallax_y: 256,
        auto_scroll_x: 0,
        auto_scroll_y: 0,
        blend_mode: BlendMode::Normal,
        alpha: 0,
    }
}

fn strip(n: usize) -> MapLayer {
    let tiles: Vec<Tile> = (0..n).map(|i| solid_tile(1, 1, &[(i + 1) as u8], 1)).collect();
    layer(n, 1, 1, 1, tiles)
}

fn direct_sprite(w: usize, h: usize, colors: &[u16]) -> SpriteAnimation {
    let mut data = Vec::new();
    for c in colors {
        data.push((c & 0xff) as u8);
        data.push((c >> 8) as u8);
    }
    SpriteAnimation { name: "idle".to_string(), width: w, height: h, depth: 16, frames: vec![data], frame_ticks: 1, palette: None }
}

#[test]
fn layer_wraps_horizontally() {
    let size = RenderSize { width: 3, height: 1 };
    let mut buf = vec![0u16; 3];
    render_layer(&size, &mut buf, 0, 1, 0, &strip(2));
    assert_eq!(buf, vec![102, 101, 102]);
}

#[test]
fn layer_negative_scroll_wraps() {
    let size = RenderSize { width: 3, height: 1 };
    let mut buf = vec![0u16; 3];
    render_layer(&size, &mut buf, 0, -1, 0, &strip(3));
    assert_eq!(buf, vec![103, 101, 102]);
}

#[test]
fn layer_parallax_truncates_toward_zero() {
    let size = RenderSize { width: 1, height: 1 };
    let mut l = strip(4);
    l.parallax_x = 128;
    let mut buf = vec![0u16; 1];
    // -3 * 128 / 256 = -1.5, truncated to -1: the last tile
    render_layer(&size, &mut buf, 0, -3, 0, &l);
    assert_eq!(buf, vec![104]);
    render_layer(&size, &mut buf, 0, 3, 0, &l);
    assert_eq!(buf, vec![102]);
}

#[test]
fn layer_auto_scroll_follows_time() {
    let size = RenderSize { width: 1, height: 1 };
    let mut l = strip(4);
    l.auto_scroll_x = 256;
    let mut buf = vec![0u16; 1];
    render_layer(&size, &mut buf, 2, 0, 0, &l);
    assert_eq!(buf, vec![103]);
}

#[test]
fn layer_partial_tiles_at_edges() {
    // two 2x2 tiles side by side, scrolled by one pixel in both axes
    let tiles = vec![solid_tile(2, 2, &[1], 1), solid_tile(2, 2, &[2], 1)];
    let l = layer(2, 1, 2, 2, tiles);
    let size = RenderSize { width: 3, height: 2 };
    let mut buf = vec![0u16; 6];
    render_layer(&size, &mut buf, 0, 1, 1, &l);
    assert_eq!(buf, vec![101, 102, 102, 101, 102, 102]);
}

#[test]
fn layer_tile_animation_by_time() {
    let l = layer(1, 1, 1, 1, vec![solid_tile(1, 1, &[1, 2], 2)]);
    let size = RenderSize { width: 1, height: 1 };
    let mut seen = Vec::new();
    for t in 0..5 {
        let mut buf = vec![0u16; 1];
        render_layer(&size, &mut buf, t, 0, 0, &l);
        seen.push(buf[0]);
    }
    assert_eq!(seen, vec![101, 101, 102, 102, 101]);
}

#[test]
fn layer_empty_cells_and_index_zero_keep_buffer() {
    let mut l = layer(2, 1, 1, 1, vec![solid_tile(1, 1, &[0], 1)]);
    l.tiles[1] = None;
    let size = RenderSize { width: 2, height: 1 };
    let mut buf = vec![7u16, 8];
    render_layer(&size, &mut buf, 0, 0, 0, &l);
    assert_eq!(buf, vec![7, 8]);
}

#[test]
fn layer_blend_mode_applies() {
    let mut l = layer(1, 1, 1, 1, vec![solid_tile(1, 1, &[1], 1)]);
    l.blend_mode = BlendMode::Add;
    let size = RenderSize { width: 1, height: 1 };
    let mut buf = vec![1u16 << 10];
    render_layer(&size, &mut buf, 0, 0, 0, &l);
    // palette colour 101 = (0, 3, 5) added to (1, 0, 0)
    assert_eq!(buf, vec![(1 << 10) | (3 << 5) | 5]);
}

#[test]
fn sprite_clipped_at_top_left() {
    let anim = direct_sprite(2, 2, &[1, 2, 3, 4]);
    let size = RenderSize { width: 2, height: 2 };
    let mut buf = vec![9u16; 4];
    render_sprite(&size, &mut buf, -1, -1, &anim, 0);
    assert_eq!(buf, vec![4, 9, 9, 9]);
}

#[test]
fn sprite_clipped_at_bottom_right() {
    let anim = direct_sprite(2, 2, &[1, 2, 3, 4]);
    let size = RenderSize { width: 2, height: 2 };
    let mut buf = vec![9u16; 4];
    render_sprite(&size, &mut buf, 1, 1, &anim, 0);
    assert_eq!(buf, vec![9, 9, 9, 1]);
}

#[test]
fn sprite_outside_view_is_skipped() {
    let anim = direct_sprite(2, 2, &[1, 2, 3, 4]);
    let size = RenderSize { width: 2, height: 2 };
    let mut buf = vec![9u16; 4];
    render_sprite(&size, &mut buf, 2, 0, &anim, 0);
    render_sprite(&size, &mut buf, -2, 0, &anim, 0);
    render_sprite(&size, &mut buf, 0, 2, &anim, 0);
    render_sprite(&size, &mut buf, 0, -2, &anim, 0);
    assert_eq!(buf, vec![9, 9, 9, 9]);
}

#[test]
fn sprite_transparent_pixels_keep_buffer() {
    let anim = direct_sprite(2, 1, &[0x8000, 5]);
    let size = RenderSize { width: 2, height: 1 };
    let mut buf = vec![9u16; 2];
    render_sprite(&size, &mut buf, 0, 0, &anim, 0);
    assert_eq!(buf, vec![9, 5]);
}

fn game_with(map_layer: MapLayer, ui_layer: MapLayer, sprite_color: u16) -> GameState {
    let sprites = vec![Sprite { animations: vec![direct_sprite(1, 1, &[sprite_color])], default_animation: 0 }];
    let mut actor = ActorInfo::new(1, 0);
    actor.add_sprite(&sprites, 0, 0, 1);
    GameState {
        frame: 0,
        scroll_x: 0,
        scroll_y: 0,
        map: GameMap { background_color: 5, layers: vec![map_layer] },
        ui_layers: vec![ui_layer],
        actors: vec![actor],
        sprites,
    }
}

#[test]
fn frame_draws_sprite_over_ui_over_map() {
    let map_layer = layer(1, 1, 2, 2, vec![solid_tile(2, 2, &[1], 1)]);
    let ui_layer = layer(1, 1, 2, 2, vec![solid_tile(2, 2, &[2], 1)]);
    let game = game_with(map_layer, ui_layer, 0x0777);
    let size = RenderSize { width: 2, height: 2 };
    let mut buf = vec![0u16; 4];
    render_frame(&size, &mut buf, &game);
    assert_eq!(buf, vec![102, 102, 102, 0x0777]);
}

#[test]
fn frame_sprite_ignores_layer_blend_mode() {
    let mut map_layer = layer(1, 1, 2, 2, vec![solid_tile(2, 2, &[1], 1)]);
    map_layer.blend_mode = BlendMode::Add;
    let mut ui_layer = layer(1, 1, 2, 2, vec![solid_tile(2, 2, &[2], 1)]);
    ui_layer.blend_mode = BlendMode::Multiply;
    ui_layer.alpha = 4;
    let game = game_with(map_layer, ui_layer, 0x0123);
    let size = RenderSize { width: 2, height: 2 };
    let mut buf = vec![0u16; 4];
    render_frame(&size, &mut buf, &game);
    assert_eq!(buf[3], 0x0123);
    assert_eq!(buf[0], buf[1]);
}

#[test]
fn frame_background_shows_through_empty_layers() {
    let mut map_layer = layer(1, 1, 2, 2, vec![solid_tile(2, 2, &[0], 1)]);
    map_layer.tiles[0] = None;
    let ui_layer = layer(1, 1, 2, 2, vec![solid_tile(2, 2, &[0], 1)]);
    let game = game_with(map_layer, ui_layer, 0x8000);
    let size = RenderSize { width: 2, height: 2 };
    let mut buf = vec![0u16; 4];
    render_frame(&size, &mut buf, &game);
    assert_eq!(buf, vec![5, 5, 5, 5]);
}

#[test]
fn frame_ui_layer_is_centred() {
    // a 1x1 UI layer in a 3x3 view lands in the middle pixel
    let map_layer = layer(1, 1, 3, 3, vec![solid_tile(3, 3, &[0], 1)]);
    let ui_layer = layer(1, 1, 1, 1, vec![solid_tile(1, 1, &[7], 1)]);
    let mut game = game_with(map_layer, ui_layer, 0x8000);
    game.actors.clear();
    let size = RenderSize { width: 3, height: 3 };
    let mut buf = vec![0u16; 9];
    render_frame(&size, &mut buf, &game);
    // the 1x1 layer repeats: it covers the whole view
    assert_eq!(buf, vec![107; 9]);
}
