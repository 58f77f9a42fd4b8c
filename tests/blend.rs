use tile_render::blend::{
    add_blend, alpha_blend, blend, multiply_blend, normal_blend, subtract_blend, BlendMode, LayerBlend,
};

fn rgb(r: u16, g: u16, b: u16) -> u16 {
    (r << 10) | (g << 5) | b
}

#[test]
fn normal_replaces_pixel() {
    let mut p = rgb(1, 2, 3);
    normal_blend(&mut p, rgb(4, 5, 6));
    assert_eq!(p, rgb(4, 5, 6));
}

#[test]
fn add_saturates_each_channel() {
    let mut p = rgb(20, 3, 31);
    add_blend(&mut p, rgb(20, 4, 0));
    assert_eq!(p, rgb(31, 7, 31));
}

#[test]
fn add_all_channel_pairs() {
    for a in 0..32u16 {
        for b in 0..32u16 {
            let mut p = rgb(a, a, a);
            add_blend(&mut p, rgb(b, b, b));
            let m = std::cmp::min(a + b, 31);
            assert_eq!(p, rgb(m, m, m));
        }
    }
}

#[test]
fn subtract_floors_at_zero() {
    let mut p = rgb(10, 5, 0);
    subtract_blend(&mut p, rgb(3, 9, 31));
    assert_eq!(p, rgb(7, 0, 0));
}

#[test]
fn subtract_all_channel_pairs() {
    for a in 0..32u16 {
        for b in 0..32u16 {
            let mut p = rgb(a, a, a);
            subtract_blend(&mut p, rgb(b, b, b));
            let m = if a > b { a - b } else { 0 };
            assert_eq!(p, rgb(m, m, m));
        }
    }
}

#[test]
fn multiply_sixteen_is_unity() {
    let mut p = rgb(16, 16, 16);
    multiply_blend(&mut p, rgb(16, 16, 16));
    assert_eq!(p, rgb(16, 16, 16));
}

#[test]
fn multiply_truncates_then_saturates() {
    let mut p = rgb(31, 3, 5);
    multiply_blend(&mut p, rgb(31, 5, 16));
    // 961 / 16 = 60 -> 31; 15 / 16 = 0; 80 / 16 = 5
    assert_eq!(p, rgb(31, 0, 5));
}

#[test]
fn multiply_all_channel_pairs() {
    for a in 0..32u16 {
        for b in 0..32u16 {
            let mut p = rgb(a, a, a);
            multiply_blend(&mut p, rgb(b, b, b));
            let m = std::cmp::min(a * b / 16, 31);
            assert_eq!(p, rgb(m, m, m));
        }
    }
}

#[test]
fn alpha_blend_mixes_self_blend_with_existing() {
    let mut p = rgb(0, 0, 8);
    alpha_blend(&mut p, rgb(10, 0, 0), 4, BlendMode::Add);
    // mixed = (20, 0, 0); red (20 * 12 + 0 * 4) / 16 = 15, blue (0 * 12 + 8 * 4) / 16 = 2
    assert_eq!(p, rgb(15, 0, 2));
}

#[test]
fn alpha_blend_normal_weights() {
    let mut p = rgb(31, 0, 16);
    alpha_blend(&mut p, rgb(0, 31, 16), 8, BlendMode::Normal);
    assert_eq!(p, rgb(15, 15, 16));
}

#[test]
fn zero_alpha_layer_uses_raw_blend() {
    let op = LayerBlend { mode: BlendMode::Add, alpha: 0 };
    let mut p = rgb(1, 1, 1);
    op.apply(&mut p, rgb(2, 2, 2));
    let mut q = rgb(1, 1, 1);
    blend(BlendMode::Add, &mut q, rgb(2, 2, 2));
    assert_eq!(p, q);
    assert_eq!(p, rgb(3, 3, 3));
    // the alpha-weighted path would first double the colour
    let mut r = rgb(1, 1, 1);
    alpha_blend(&mut r, rgb(2, 2, 2), 0, BlendMode::Add);
    assert_eq!(r, rgb(4, 4, 4));
}

#[test]
fn nonzero_alpha_layer_uses_weighted_blend() {
    let op = LayerBlend { mode: BlendMode::Subtract, alpha: 8 };
    let mut p = rgb(10, 10, 10);
    op.apply(&mut p, rgb(4, 4, 4));
    // self-blend of (4, 4, 4) under subtract is 0; (0 * 8 + 10 * 8) / 16 = 5
    assert_eq!(p, rgb(5, 5, 5));
}
