use tile_render::blend::{BlendMode, LayerBlend};
use tile_render::raster::{
    render_tile_16bit, render_tile_4bit, render_tile_8bit, render_tile_row, Palette, PaletteWithOffset,
};

fn normal() -> LayerBlend {
    LayerBlend { mode: BlendMode::Normal, alpha: 0 }
}

fn palette(offset: usize, len: usize) -> Option<PaletteWithOffset> {
    let entries: Vec<u16> = (0..len as u16).map(|i| 100 + i).collect();
    Some(PaletteWithOffset { palette: Palette { entries }, offset })
}

#[test]
fn four_bit_skips_index_zero() {
    let mut dest = vec![7u16, 7, 7, 7];
    let data = [0x10u8, 0x02];
    render_tile_4bit(&mut dest, 0, &data, 0, 0, 4, &palette(0, 16), normal());
    assert_eq!(dest, vec![7, 101, 102, 7]);
}

#[test]
fn four_bit_odd_left_and_offset() {
    let mut dest = vec![0u16; 5];
    let data = [0x21u8, 0x43];
    // pixels 1..4 of the row (indices 2, 3, 4), palette window starting at 5
    render_tile_4bit(&mut dest, 1, &data, 0, 1, 3, &palette(5, 32), normal());
    assert_eq!(dest, vec![0, 107, 108, 109, 0]);
}

#[test]
fn eight_bit_skips_index_zero() {
    let mut dest = vec![9u16; 4];
    let data = [0u8, 3, 0, 255, 1];
    render_tile_8bit(&mut dest, 0, &data, 1, 0, 4, &palette(0, 256), normal());
    assert_eq!(dest, vec![103, 9, 355, 101]);
}

#[test]
fn indexed_without_palette_draws_nothing() {
    let mut dest = vec![9u16; 2];
    let data = [1u8, 2];
    render_tile_8bit(&mut dest, 0, &data, 0, 0, 2, &None, normal());
    assert_eq!(dest, vec![9, 9]);
}

#[test]
fn sixteen_bit_reads_little_endian_and_skips_top_bit() {
    let mut dest = vec![9u16; 3];
    let data = [0x34u8, 0x12, 0xff, 0xff, 0x01, 0x00];
    render_tile_16bit(&mut dest, 0, &data, 0, 0, 3, &None, normal());
    assert_eq!(dest, vec![0x1234, 9, 0x0001]);
}

#[test]
fn sixteen_bit_top_bit_alone_is_transparent() {
    let mut dest = vec![5u16; 2];
    let data = [0x00u8, 0x80, 0x00, 0x7f];
    render_tile_16bit(&mut dest, 0, &data, 0, 0, 2, &None, normal());
    assert_eq!(dest, vec![5, 0x7f00]);
}

#[test]
fn row_blends_with_layer_mode() {
    let mut dest = vec![(1u16 << 10) | 1; 2];
    let data = [2u8, 0];
    let mut entries = vec![0u16; 256];
    entries[2] = (3 << 10) | 3;
    let pal = Some(PaletteWithOffset { palette: Palette { entries }, offset: 0 });
    render_tile_row(8, &mut dest, 0, &data, 0, 0, 2, &pal, LayerBlend { mode: BlendMode::Add, alpha: 0 });
    assert_eq!(dest, vec![(4 << 10) | 4, (1 << 10) | 1]);
}
