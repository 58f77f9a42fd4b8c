//! Per-channel compositing of 15-bit colours (5 bits each of red, green
//! and blue) under the four blend modes, with optional alpha weighting.

use vstd::prelude::*;

verus! {

/// Red channel: bits 10 to 14.
pub open spec fn red(c: u16) -> u16 {
    (c >> 10u16) & 0x1f
}

/// Green channel: bits 5 to 9.
pub open spec fn green(c: u16) -> u16 {
    (c >> 5u16) & 0x1f
}

/// Blue channel: bits 0 to 4.
pub open spec fn blue(c: u16) -> u16 {
    c & 0x1f
}

/// The colour with the given channels and the transparency bit clear.
pub open spec fn pack(r: u16, g: u16, b: u16) -> u16 {
    (r << 10u16) | (g << 5u16) | b
}

pub open spec fn add_channel(e: u16, c: u16) -> u16 {
    if e + c > 31 {
        31
    } else {
        (e + c) as u16
    }
}

pub open spec fn subtract_channel(e: u16, c: u16) -> u16 {
    if c >= e {
        0
    } else {
        (e - c) as u16
    }
}

pub open spec fn multiply_channel(e: u16, c: u16) -> u16 {
    if e * c / 16 > 31 {
        31
    } else {
        (e * c / 16) as u16
    }
}

/// Weighted mix of two channel values: `mixed` weighs `16 - alpha`,
/// `existing` weighs `alpha`, and the sum is divided by 16.
pub open spec fn mix_channel(mixed: u16, existing: u16, alpha: u8) -> u16 {
    ((mixed * (16 - alpha) + existing * alpha) / 16) as u16
}

#[derive(Clone, Copy, Debug, PartialEq, Eq, Structural)]
pub enum BlendMode {
    Normal,
    Add,
    Subtract,
    Multiply,
}

/// What the raw blend of `mode` leaves in a pixel that held `e`, for the
/// incoming colour `c`.
pub open spec fn blend_spec(mode: BlendMode, e: u16, c: u16) -> u16 {
    match mode {
        BlendMode::Normal => c,
        BlendMode::Add => pack(
            add_channel(red(e), red(c)),
            add_channel(green(e), green(c)),
            add_channel(blue(e), blue(c)),
        ),
        BlendMode::Subtract => pack(
            subtract_channel(red(e), red(c)),
            subtract_channel(green(e), green(c)),
            subtract_channel(blue(e), blue(c)),
        ),
        BlendMode::Multiply => pack(
            multiply_channel(red(e), red(c)),
            multiply_channel(green(e), green(c)),
            multiply_channel(blue(e), blue(c)),
        ),
    }
}

/// The alpha-weighted blend: the incoming colour is first blended with
/// itself, and the result is mixed with the existing pixel.
pub open spec fn alpha_blend_spec(mode: BlendMode, alpha: u8, e: u16, c: u16) -> u16 {
    let m = blend_spec(mode, c, c);
    pack(
        mix_channel(red(m), red(e), alpha),
        mix_channel(green(m), green(e), alpha),
        mix_channel(blue(m), blue(e), alpha),
    )
}

pub proof fn lemma_channels_bounded(c: u16)
    ensures
        red(c) < 32,
        green(c) < 32,
        blue(c) < 32,
{
    assert((c >> 10u16) & 0x1f < 32) by (bit_vector);
    assert((c >> 5u16) & 0x1f < 32) by (bit_vector);
    assert(c & 0x1f < 32) by (bit_vector);
}

pub proof fn lemma_pack_channels(r: u16, g: u16, b: u16)
    requires
        r < 32,
        g < 32,
        b < 32,
    ensures
        red(pack(r, g, b)) == r,
        green(pack(r, g, b)) == g,
        blue(pack(r, g, b)) == b,
        pack(r, g, b) < 0x8000,
{
    assert((((r << 10u16) | (g << 5u16) | b) >> 10u16) & 0x1f == r) by (bit_vector)
        requires
            r < 32,
            g < 32,
            b < 32,
    ;
    assert((((r << 10u16) | (g << 5u16) | b) >> 5u16) & 0x1f == g) by (bit_vector)
        requires
            r < 32,
            g < 32,
            b < 32,
    ;
    assert(((r << 10u16) | (g << 5u16) | b) & 0x1f == b) by (bit_vector)
        requires
            r < 32,
            g < 32,
            b < 32,
    ;
    assert(((r << 10u16) | (g << 5u16) | b) < 0x8000) by (bit_vector)
        requires
            r < 32,
            g < 32,
            b < 32,
    ;
}

fn split_channels(c: u16) -> (r: (u16, u16, u16))
    ensures
        r == (red(c), green(c), blue(c)),
        r.0 < 32 && r.1 < 32 && r.2 < 32,
{
    proof {
        lemma_channels_bounded(c);
    }
    ((c >> 10) & 0x1f, (c >> 5) & 0x1f, c & 0x1f)
}

fn join_channels(r: u16, g: u16, b: u16) -> (c: u16)
    requires
        r < 32,
        g < 32,
        b < 32,
    ensures
        c == pack(r, g, b),
        red(c) == r,
        green(c) == g,
        blue(c) == b,
{
    proof {
        lemma_pack_channels(r, g, b);
    }
    (r << 10) | (g << 5) | b
}

/// Replaces the pixel with the incoming colour.
pub fn normal_blend(pixel: &mut u16, color: u16)
    ensures
        *final(pixel) == blend_spec(BlendMode::Normal, *old(pixel), color),
{
    *pixel = color;
}

/// Adds each channel, saturating at 31.
pub fn add_blend(pixel: &mut u16, color: u16)
    ensures
        *final(pixel) == blend_spec(BlendMode::Add, *old(pixel), color),
        red(*final(pixel)) == add_channel(red(*old(pixel)), red(color)),
        green(*final(pixel)) == add_channel(green(*old(pixel)), green(color)),
        blue(*final(pixel)) == add_channel(blue(*old(pixel)), blue(color)),
{
    let (existing_r, existing_g, existing_b) = split_channels(*pixel);
    let (add_r, add_g, add_b) = split_channels(color);

    let mut blended_r = existing_r + add_r;
    let mut blended_g = existing_g + add_g;
    let mut blended_b = existing_b + add_b;
    if blended_r > 0x1f {
        blended_r = 0x1f;
    }
    if blended_g > 0x1f {
        blended_g = 0x1f;
    }
    if blended_b > 0x1f {
        blended_b = 0x1f;
    }
    *pixel = join_channels(blended_r, blended_g, blended_b);
}

/// Subtracts the incoming channels from the existing ones, flooring at 0.
pub fn subtract_blend(pixel: &mut u16, color: u16)
    ensures
        *final(pixel) == blend_spec(BlendMode::Subtract, *old(pixel), color),
        red(*final(pixel)) == subtract_channel(red(*old(pixel)), red(color)),
        green(*final(pixel)) == subtract_channel(green(*old(pixel)), green(color)),
        blue(*final(pixel)) == subtract_channel(blue(*old(pixel)), blue(color)),
{
    let (existing_r, existing_g, existing_b) = split_channels(*pixel);
    let (sub_r, sub_g, sub_b) = split_channels(color);

    let blended_r = if sub_r >= existing_r {
        0
    } else {
        existing_r - sub_r
    };
    let blended_g = if sub_g >= existing_g {
        0
    } else {
        existing_g - sub_g
    };
    let blended_b = if sub_b >= existing_b {
        0
    } else {
        existing_b - sub_b
    };
    *pixel = join_channels(blended_r, blended_g, blended_b);
}

/// Multiplies each pair of channels and divides by 16, saturating at 31.
pub fn multiply_blend(pixel: &mut u16, color: u16)
    ensures
        *final(pixel) == blend_spec(BlendMode::Multiply, *old(pixel), color),
        red(*final(pixel)) == multiply_channel(red(*old(pixel)), red(color)),
        green(*final(pixel)) == multiply_channel(green(*old(pixel)), green(color)),
        blue(*final(pixel)) == multiply_channel(blue(*old(pixel)), blue(color)),
{
    let (existing_r, existing_g, existing_b) = split_channels(*pixel);
    let (mul_r, mul_g, mul_b) = split_channels(color);
    assert(existing_r * mul_r < 32 * 32) by (nonlinear_arith)
        requires
            existing_r < 32,
            mul_r < 32,
    ;
    assert(existing_g * mul_g < 32 * 32) by (nonlinear_arith)
        requires
            existing_g < 32,
            mul_g < 32,
    ;
    assert(existing_b * mul_b < 32 * 32) by (nonlinear_arith)
        requires
            existing_b < 32,
            mul_b < 32,
    ;

    let mut blended_r = (existing_r * mul_r) / 16;
    let mut blended_g = (existing_g * mul_g) / 16;
    let mut blended_b = (existing_b * mul_b) / 16;
    if blended_r > 0x1f {
        blended_r = 0x1f;
    }
    if blended_g > 0x1f {
        blended_g = 0x1f;
    }
    if blended_b > 0x1f {
        blended_b = 0x1f;
    }
    *pixel = join_channels(blended_r, blended_g, blended_b);
}

/// The raw blend of `mode`.
pub fn blend(mode: BlendMode, pixel: &mut u16, color: u16)
    ensures
        *final(pixel) == blend_spec(mode, *old(pixel), color),
{
    match mode {
        BlendMode::Normal => normal_blend(pixel, color),
        BlendMode::Add => add_blend(pixel, color),
        BlendMode::Subtract => subtract_blend(pixel, color),
        BlendMode::Multiply => multiply_blend(pixel, color),
    }
}

fn mix(mixed: u16, existing: u16, alpha: u8) -> (r: u16)
    requires
        mixed < 32,
        existing < 32,
        alpha < 16,
    ensures
        r == mix_channel(mixed, existing, alpha),
        r < 32,
{
    let a = alpha as u16;
    assert(mixed * (16 - a) + existing * a <= 31 * 16) by (nonlinear_arith)
        requires
            mixed < 32,
            existing < 32,
            a < 16,
    ;
    ((mixed * (16 - a)) + (existing * a)) / 16
}

/// Blends the incoming colour with itself under `mode`, then mixes that
/// with the existing pixel, weighing the existing pixel by `alpha / 16`.
pub fn alpha_blend(pixel: &mut u16, color: u16, alpha: u8, mode: BlendMode)
    requires
        alpha < 16,
    ensures
        *final(pixel) == alpha_blend_spec(mode, alpha, *old(pixel), color),
{
    let mut mixed_color = color;
    blend(mode, &mut mixed_color, color);
    let (mixed_r, mixed_g, mixed_b) = split_channels(mixed_color);
    let (existing_r, existing_g, existing_b) = split_channels(*pixel);

    let blended_r = mix(mixed_r, existing_r, alpha);
    let blended_g = mix(mixed_g, existing_g, alpha);
    let blended_b = mix(mixed_b, existing_b, alpha);
    *pixel = join_channels(blended_r, blended_g, blended_b);
}

/// The blend a layer applies: `alpha == 0` selects the raw blend of
/// `mode`, any other alpha the alpha-weighted blend.
#[derive(Clone, Copy, Debug, PartialEq, Eq, Structural)]
pub struct LayerBlend {
    pub mode: BlendMode,
    pub alpha: u8,
}

pub open spec fn layer_blend_spec(op: LayerBlend, e: u16, c: u16) -> u16 {
    if op.alpha == 0 {
        blend_spec(op.mode, e, c)
    } else {
        alpha_blend_spec(op.mode, op.alpha, e, c)
    }
}

impl LayerBlend {
    pub open spec fn valid(self) -> bool {
        self.alpha < 16
    }

    /// Blends `color` into `pixel`.
    pub fn apply(&self, pixel: &mut u16, color: u16)
        requires
            self.valid(),
        ensures
            *final(pixel) == layer_blend_spec(*self, *old(pixel), color),
    {
        if self.alpha == 0 {
            blend(self.mode, pixel, color);
        } else {
            alpha_blend(pixel, color, self.alpha, self.mode);
        }
    }
}

/// A layer whose alpha is 0 blends exactly as the raw blend of its mode:
/// the incoming colour is not blended with itself first.
pub proof fn lemma_zero_alpha_is_raw_blend(mode: BlendMode, existing: u16, color: u16)
    ensures
        layer_blend_spec(LayerBlend { mode, alpha: 0 }, existing, color) == blend_spec(
            mode,
            existing,
            color,
        ),
{
}

} // verus!
