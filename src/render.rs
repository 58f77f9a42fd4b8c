//! Compositing map layers, sprites and whole frames into a render buffer.

use vstd::prelude::*;
use vstd::arithmetic::div_mod::{lemma_fundamental_div_mod_converse, lemma_div_is_ordered};
use crate::blend::{BlendMode, LayerBlend};
use crate::raster::{drawn, pitch_spec, render_tile_row, source_pixel};
use crate::sprite::{SpriteAnimation, animation_frame};
use crate::tiles::MapLayer;

verus! {

/// Width and height of a render target in pixels.
#[derive(Clone, Copy, Debug, PartialEq, Eq, Structural)]
pub struct RenderSize {
    pub width: usize,
    pub height: usize,
}

impl RenderSize {
    /// Number of pixels of a buffer of this size.
    pub open spec fn area(self) -> int {
        self.width * self.height
    }
}

/// Division by 256 truncating toward zero.
pub open spec fn trunc_div_256(v: int) -> int {
    if v >= 0 {
        v / 256
    } else {
        -((-v) / 256)
    }
}

/// The smallest multiple of `extent` that is at least 2^30: added to a
/// scroll position so that it stays non-negative while the grid wraps.
pub open spec fn wrap_bias(extent: int) -> int {
    0x4000_0000int + (extent - 0x4000_0000int % extent) % extent
}

/// The scroll position of a layer on one axis: the view's scroll scaled
/// by the parallax factor, plus the automatic scroll of `time` ticks,
/// both in 1/256 pixel units, then biased by `wrap_bias(extent)`.
pub open spec fn layer_scroll(scroll: int, parallax: int, auto_scroll: int, time: int, extent: int) -> int {
    trunc_div_256(scroll * parallax + auto_scroll * time) + wrap_bias(extent)
}

pub open spec fn layer_scroll_x(layer: MapLayer, scroll_x: int, time: int) -> int {
    layer_scroll(scroll_x, layer.parallax_x as int, layer.auto_scroll_x as int, time, layer.pixel_width())
}

pub open spec fn layer_scroll_y(layer: MapLayer, scroll_y: int, time: int) -> int {
    layer_scroll(scroll_y, layer.parallax_y as int, layer.auto_scroll_y as int, time, layer.pixel_height())
}

/// The layer's scrolled view of `size` pixels lies in the addressable range.
pub open spec fn layer_scroll_fits(layer: MapLayer, size: RenderSize, scroll_x: int, scroll_y: int, time: int) -> bool {
    &&& 0 <= layer_scroll_x(layer, scroll_x, time)
    &&& layer_scroll_x(layer, scroll_x, time) + size.width <= usize::MAX
    &&& 0 <= layer_scroll_y(layer, scroll_y, time)
    &&& layer_scroll_y(layer, scroll_y, time) + size.height <= usize::MAX
}

/// The buffer after `layer` was drawn over `before`: pixel `k` (row
/// `k / width`, column `k % width`) shows the layer's world pixel at the
/// scroll position plus that row and column, blended as the layer says.
pub open spec fn layer_image(
    before: Seq<u16>,
    size: RenderSize,
    layer: MapLayer,
    time: int,
    scroll_x: int,
    scroll_y: int,
) -> Seq<u16> {
    let sx = layer_scroll_x(layer, scroll_x, time);
    let sy = layer_scroll_y(layer, scroll_y, time);
    Seq::new(
        before.len(),
        |k: int|
            if k < size.area() {
                drawn(
                    layer.layer_blend(),
                    before[k],
                    layer.source_at(time, sx + k % size.width as int, sy + k / size.width as int),
                )
            } else {
                before[k]
            },
    )
}

/// The scroll position of a layer on one axis, as `layer_scroll` states.
fn effective_scroll(scroll: isize, parallax: i32, auto_scroll: i32, time: usize, extent: usize, view: usize) -> (r: usize)
    requires
        extent >= 1,
        0 <= layer_scroll(scroll as int, parallax as int, auto_scroll as int, time as int, extent as int),
        layer_scroll(scroll as int, parallax as int, auto_scroll as int, time as int, extent as int) + view <= usize::MAX,
    ensures
        r == layer_scroll(scroll as int, parallax as int, auto_scroll as int, time as int, extent as int),
        r + view <= usize::MAX,
{
    let s = scroll as i128;
    let p = parallax as i128;
    let a = auto_scroll as i128;
    let t = time as i128;
    assert(-0x8000_0000_0000_0000_0000_0000 <= s * p <= 0x8000_0000_0000_0000_0000_0000) by (nonlinear_arith)
        requires
            -0x8000_0000_0000_0000 <= s <= 0x8000_0000_0000_0000,
            -0x8000_0000 <= p <= 0x8000_0000,
    ;
    assert(-0x8000_0000_0000_0000_0000_0000 <= a * t <= 0x8000_0000_0000_0000_0000_0000) by (nonlinear_arith)
        requires
            0 <= t <= 0x1_0000_0000_0000_0000,
            -0x8000_0000 <= a <= 0x8000_0000,
    ;
    let v = s * p + a * t;
    let scaled: i128 = if v >= 0 {
        ((v as u128) / 256) as i128
    } else {
        -((((-v) as u128) / 256) as i128)
    };
    let e = extent as u128;
    let bias = 0x4000_0000u128 + (e - 0x4000_0000u128 % e) % e;
    (scaled + bias as i128) as usize
}

proof fn lemma_row_col(k: int, w: int, row: int, col: int)
    requires
        w > 0,
        0 <= col < w,
        k == row * w + col,
    ensures
        k / w == row,
        k % w == col,
{
    lemma_fundamental_div_mod_converse(k, w, row, col);
}

proof fn lemma_in_tile(wx: int, tw: int, i: int)
    requires
        tw > 0,
        0 <= i,
        wx % tw + i < tw,
    ensures
        (wx + i) / tw == wx / tw,
        (wx + i) % tw == wx % tw + i,
{
    let q = wx / tw;
    let r = wx % tw;
    vstd::arithmetic::div_mod::lemma_fundamental_div_mod(wx, tw);
    assert(wx + i == q * tw + (r + i)) by (nonlinear_arith)
        requires
            wx == tw * q + r,
    ;
    lemma_fundamental_div_mod_converse(wx + i, tw, q, r + i);
}

proof fn lemma_row_in_buffer(row: int, w: int, h: int)
    requires
        0 <= row < h,
        w >= 0,
    ensures
        row * w + w <= w * h,
        0 <= row * w,
{
    assert(row * w + w <= w * h) by (nonlinear_arith)
        requires
            0 <= row < h,
            w >= 0,
    ;
    assert(0 <= row * w) by (nonlinear_arith)
        requires
            0 <= row,
            w >= 0,
    ;
}

proof fn lemma_rows_of_data(row: int, rows: int, pitch: int, run_end: int, width: int, depth: int)
    requires
        0 <= row < rows,
        0 <= run_end <= width,
        pitch == pitch_spec(width, depth),
        depth > 0,
    ensures
        0 <= row * pitch,
        row * pitch + pitch_spec(run_end, depth) <= rows * pitch,
{
    assert(0 <= run_end * depth + 7 <= width * depth + 7) by (nonlinear_arith)
        requires
            0 <= run_end <= width,
            depth > 0,
    ;
    lemma_div_is_ordered(run_end * depth + 7, width * depth + 7, 8);
    assert(0 <= pitch);
    assert(row * pitch + pitch <= rows * pitch && 0 <= row * pitch) by (nonlinear_arith)
        requires
            0 <= row < rows,
            0 <= pitch,
    ;
}

/// Draws `layer` over the whole buffer at the given view scroll, with the
/// blend the layer names.
pub fn render_layer(
    render_size: &RenderSize,
    render_buf: &mut Vec<u16>,
    time: usize,
    scroll_x: isize,
    scroll_y: isize,
    layer: &MapLayer,
)
    requires
        layer.wf(),
        old(render_buf)@.len() == render_size.area(),
        layer_scroll_fits(*layer, *render_size, scroll_x as int, scroll_y as int, time as int),
    ensures
        final(render_buf)@ == layer_image(
            old(render_buf)@,
            *render_size,
            *layer,
            time as int,
            scroll_x as int,
            scroll_y as int,
        ),
{
    let op = LayerBlend { mode: layer.blend_mode, alpha: layer.alpha };
    render_layer_with_blending(render_size, render_buf, time, layer, scroll_x, scroll_y, op);
}

fn render_layer_with_blending(
    render_size: &RenderSize,
    render_buf: &mut Vec<u16>,
    time: usize,
    layer: &MapLayer,
    scroll_x: isize,
    scroll_y: isize,
    op: LayerBlend,
)
    requires
        layer.wf(),
        op == layer.layer_blend(),
        old(render_buf)@.len() == render_size.area(),
        layer_scroll_fits(*layer, *render_size, scroll_x as int, scroll_y as int, time as int),
    ensures
        final(render_buf)@ == layer_image(
            old(render_buf)@,
            *render_size,
            *layer,
            time as int,
            scroll_x as int,
            scroll_y as int,
        ),
{
    let w = render_size.width;
    let h = render_size.height;
    let tw = layer.tile_width;
    let th = layer.tile_height;
    let lw = layer.width;
    let lh = layer.height;
    let depth = layer.tile_depth;
    let ghost before = render_buf@;
    let buf_len = render_buf.len();
    let n_tiles = layer.tiles.len();
    assert(tw * lw >= 1 && th * lh >= 1) by (nonlinear_arith)
        requires
            tw >= 1,
            lw >= 1,
            th >= 1,
            lh >= 1,
    ;

    // Scroll position of the layer, kept non-negative for the wrap-around
    let sx = effective_scroll(scroll_x, layer.parallax_x, layer.auto_scroll_x, time, tw * lw, w);
    let sy = effective_scroll(scroll_y, layer.parallax_y, layer.auto_scroll_y, time, th * lh, h);
    assert(tw * depth <= 16 * 0xffff_ffff_ffff_ffff) by (nonlinear_arith)
        requires
            tw <= 0xffff_ffff_ffff_ffff,
            depth <= 16,
    ;
    let pitch = (tw as u128 * depth as u128 + 7) / 8;
    assert(pitch == pitch_spec(tw as int, depth as int));

    let mut py: usize = 0;
    while py < h
        invariant
            layer.wf(),
            op == layer.layer_blend(),
            op.valid(),
            py <= h,
            render_buf@.len() == w * h,
            before.len() == w * h,
            buf_len == w * h,
            n_tiles == lw * lh,
            w == render_size.width,
            h == render_size.height,
            tw == layer.tile_width,
            th == layer.tile_height,
            lw == layer.width,
            lh == layer.height,
            depth == layer.tile_depth,
            sx == layer_scroll_x(*layer, scroll_x as int, time as int),
            sy == layer_scroll_y(*layer, scroll_y as int, time as int),
            sx + w <= usize::MAX,
            sy + h <= usize::MAX,
            pitch == pitch_spec(tw as int, depth as int),
            forall|k: int|
                0 <= k < py * w ==> #[trigger] render_buf@[k] == drawn(
                    op,
                    before[k],
                    layer.source_at(time as int, sx + k % w as int, sy + k / w as int),
                ),
            forall|k: int| py * w <= k < w * h ==> #[trigger] render_buf@[k] == before[k],
        decreases h - py,
    {
        let wy = sy + py;
        let tile_y = wy / th;
        let pixel_y = wy % th;
        proof {
            lemma_row_in_buffer(py as int, w as int, h as int);
            assert(0 <= (tile_y % lh) * lw + lw <= lw * lh) by (nonlinear_arith)
                requires
                    0 <= tile_y % lh < lh,
                    lw >= 1,
            ;
        }
        let row_base = py * w;
        let map_row = (tile_y % lh) * lw;

        let mut target_x: usize = 0;
        while target_x < w
            invariant
                layer.wf(),
                op == layer.layer_blend(),
                op.valid(),
                py < h,
                target_x <= w,
                row_base == py * w,
                row_base + w <= w * h,
                render_buf@.len() == w * h,
                before.len() == w * h,
                buf_len == w * h,
                n_tiles == lw * lh,
                tw == layer.tile_width,
                th == layer.tile_height,
                lw == layer.width,
                lh == layer.height,
                depth == layer.tile_depth,
                sx + w <= usize::MAX,
                wy == sy + py,
                tile_y == wy / th,
                pixel_y == wy % th,
                map_row == (tile_y % lh) * lw,
                map_row + lw <= lw * lh,
                pitch == pitch_spec(tw as int, depth as int),
                forall|k: int|
                    0 <= k < row_base ==> #[trigger] render_buf@[k] == drawn(
                        op,
                        before[k],
                        layer.source_at(time as int, sx + k % w as int, sy + k / w as int),
                    ),
                forall|j: int|
                    0 <= j < target_x ==> #[trigger] render_buf@[row_base + j] == drawn(
                        op,
                        before[row_base + j],
                        layer.source_at(time as int, sx + j, wy as int),
                    ),
                forall|k: int| row_base + target_x <= k < w * h ==> #[trigger] render_buf@[k] == before[k],
            decreases w - target_x,
        {
            let wx = sx + target_x;
            let tile_x = wx / tw;
            let cur_left = wx % tw;
            let mut run_w = tw - cur_left;
            if run_w > w - target_x {
                run_w = w - target_x;
            }
            let ghost row_before = render_buf@;
            let cell = layer.tiles[map_row + tile_x % lw];
            assert(layer.cell_wf(layer.tiles@[map_row + tile_x % lw]));
            match cell {
                Some(r) => {
                    let tile = &layer.tile_sets[r.tile_set].tiles[r.tile_index];
                    let data = tile.data_for_time(time);
                    let data_len = data.len();
                    proof {
                        assert(pitch <= th * pitch) by (nonlinear_arith)
                            requires
                                th >= 1,
                                pitch >= 0,
                        ;
                        lemma_rows_of_data(pixel_y as int, th as int, pitch as int, cur_left + run_w, tw as int, depth as int);
                        assert(th * pitch <= data@.len());
                    }
                    render_tile_row(
                        depth,
                        render_buf,
                        row_base + target_x,
                        data.as_slice(),
                        pixel_y * (pitch as usize),
                        cur_left,
                        run_w,
                        &tile.palette,
                        op,
                    );
                },
                None => {},
            }
            proof {
                assert forall|j: int| target_x <= j < target_x + run_w implies #[trigger] render_buf@[row_base + j] == drawn(
                    op,
                    before[row_base + j],
                    layer.source_at(time as int, sx + j, wy as int),
                ) by {
                    let i = j - target_x;
                    lemma_in_tile(wx as int, tw as int, i);
                    assert(render_buf@[row_base + target_x + i] == render_buf@[row_base + j]);
                }
            }
            target_x += run_w;
        }
        proof {
            assert((py + 1) * w == py * w + w) by (nonlinear_arith);
            assert forall|k: int| 0 <= k < (py + 1) * w implies #[trigger] render_buf@[k] == drawn(
                op,
                before[k],
                layer.source_at(time as int, sx + k % w as int, sy + k / w as int),
            ) by {
                if k >= row_base {
                    lemma_row_col(k, w as int, py as int, k - row_base);
                    assert(render_buf@[row_base + (k - row_base)] == render_buf@[k]);
                }
            }
        }
        py += 1;
    }
    assert(py * w == w * h) by (nonlinear_arith)
        requires
            py == h,
    ;
    assert(render_buf@ =~= layer_image(before, *render_size, *layer, time as int, scroll_x as int, scroll_y as int));
}

/// Sprites always draw with the plain replacing blend.
pub open spec fn sprite_blend() -> LayerBlend {
    LayerBlend { mode: BlendMode::Normal, alpha: 0 }
}

/// The colour of pixel `(sx, sy)` of the animation's frame at tick
/// `time`, or `None` where it is transparent or outside the frame.
pub open spec fn sprite_source(anim: SpriteAnimation, time: int, sx: int, sy: int) -> Option<u16> {
    if 0 <= sx < anim.width && 0 <= sy < anim.height {
        source_pixel(
            anim.depth,
            animation_frame(anim, time),
            sy * pitch_spec(anim.width as int, anim.depth as int),
            sx,
            anim.palette,
        )
    } else {
        None
    }
}

/// The buffer after the animation's frame at tick `time` was drawn with
/// its top left corner at `(x, y)` of the render target.
pub open spec fn sprite_image(
    before: Seq<u16>,
    size: RenderSize,
    x: int,
    y: int,
    anim: SpriteAnimation,
    time: int,
) -> Seq<u16> {
    Seq::new(
        before.len(),
        |k: int|
            if k < size.area() {
                drawn(
                    sprite_blend(),
                    before[k],
                    sprite_source(anim, time, k % size.width as int - x, k / size.width as int - y),
                )
            } else {
                before[k]
            },
    )
}

/// Draws the animation's frame at tick `frame` with its top left corner
/// at `(x, y)`, clipped to the render target.
pub fn render_sprite(
    render_size: &RenderSize,
    render_buf: &mut Vec<u16>,
    x: isize,
    y: isize,
    animation: &SpriteAnimation,
    frame: usize,
)
    requires
        animation.wf(),
        old(render_buf)@.len() == render_size.area(),
    ensures
        final(render_buf)@ == sprite_image(old(render_buf)@, *render_size, x as int, y as int, *animation, frame as int),
{
    let ghost before = render_buf@;
    let w = render_size.width;
    let h = render_size.height;
    let aw = animation.width;
    let ah = animation.height;
    let buf_len = render_buf.len();
    let op = LayerBlend { mode: BlendMode::Normal, alpha: 0 };
    if (x >= 0 && x as usize >= w) || (y >= 0 && y as usize >= h) || (x <= -(aw as isize)) || (y <= -(ah as isize)) {
        proof {
            assert forall|k: int| 0 <= k < render_size.area() implies #[trigger] sprite_source(*animation, frame as int, k % w as int - x, k / w as int - y) is None by {
                lemma_row_bound(k, w as int, h as int);
            }
            assert(render_buf@ =~= sprite_image(before, *render_size, x as int, y as int, *animation, frame as int));
        }
        return;
    }

    let mut x_offset: usize = 0;
    let mut y_offset: usize = 0;
    let x_start: usize;
    let y_start: usize;
    let mut width = aw;
    let mut height = ah;
    if x < 0 {
        x_offset = (-x) as usize;
        width -= x_offset;
        x_start = 0;
    } else {
        x_start = x as usize;
    }
    if y < 0 {
        y_offset = (-y) as usize;
        height -= y_offset;
        y_start = 0;
    } else {
        y_start = y as usize;
    }
    if x_start + width > w {
        width = w - x_start;
    }
    if y_start + height > h {
        height = h - y_start;
    }

    let sprite_data = animation.data_for_time(frame);
    let data_len = sprite_data.len();
    assert(aw * animation.depth <= 16 * 0xffff_ffff_ffff_ffff) by (nonlinear_arith)
        requires
            aw <= 0xffff_ffff_ffff_ffff,
            animation.depth <= 16,
    ;
    let pitch = (aw as u128 * animation.depth as u128 + 7) / 8;
    assert(ah * pitch <= data_len);

    let mut pixel_y: usize = 0;
    while pixel_y < height
        invariant
            animation.wf(),
            op == sprite_blend(),
            w == render_size.width,
            h == render_size.height,
            aw == animation.width,
            ah == animation.height,
            buf_len == w * h,
            render_buf@.len() == w * h,
            before.len() == w * h,
            pixel_y <= height,
            y_start + height <= h,
            x_start + width <= w,
            x_offset + width <= aw,
            y_offset + height <= ah,
            x_start - x_offset == x,
            y_start - y_offset == y,
            x_offset > 0 ==> x_start == 0,
            y_offset > 0 ==> y_start == 0,
            width < aw - x_offset ==> x_start + width == w,
            height < ah - y_offset ==> y_start + height == h,
            sprite_data@ == animation_frame(*animation, frame as int),
            data_len == sprite_data@.len(),
            ah * pitch <= data_len,
            pitch == pitch_spec(aw as int, animation.depth as int),
            forall|k: int|
                0 <= k < w * h ==> #[trigger] render_buf@[k] == (if k / (w as int) < y_start + pixel_y {
                    drawn(
                        op,
                        before[k],
                        sprite_source(*animation, frame as int, k % w as int - x, k / w as int - y),
                    )
                } else {
                    before[k]
                }),
        decreases height - pixel_y,
    {
        let row = y_start + pixel_y;
        let src_row = y_offset + pixel_y;
        proof {
            lemma_row_in_buffer(row as int, w as int, h as int);
            lemma_rows_of_data(src_row as int, ah as int, pitch as int, x_offset + width, aw as int, animation.depth as int);
            assert(pitch <= ah * pitch) by (nonlinear_arith)
                requires
                    src_row < ah,
                    pitch >= 0,
            ;
        }
        let ghost row_before = render_buf@;
        let row_base = row * w;
        render_tile_row(
            animation.depth,
            render_buf,
            row_base + x_start,
            sprite_data.as_slice(),
            src_row * (pitch as usize),
            x_offset,
            width,
            &animation.palette,
            op,
        );
        proof {
            assert forall|k: int| 0 <= k < w * h implies #[trigger] render_buf@[k] == (if k / (w as int) < y_start + pixel_y + 1 {
                drawn(
                    op,
                    before[k],
                    sprite_source(*animation, frame as int, k % w as int - x, k / w as int - y),
                )
            } else {
                before[k]
            }) by {
                lemma_row_bound(k, w as int, h as int);
                vstd::arithmetic::div_mod::lemma_fundamental_div_mod(k, w as int);
                let r = k / w as int;
                let c = k % w as int;
                lemma_row_col(k, w as int, r, c);
                if r == row {
                    lemma_row_col(k, w as int, row as int, c);
                    assert(k == row_base + c);
                    if x_start <= c < x_start + width {
                        let i = c - x_start;
                        assert(render_buf@[row_base + x_start + i] == render_buf@[k]);
                    } else {
                        assert(k < row_base + x_start || k >= row_base + x_start + width);
                    }
                } else if r < row {
                    assert(k < row_base) by {
                        lemma_row_lt(k, w as int, r, row as int);
                    }
                } else {
                    assert(k >= row_base + w) by {
                        lemma_row_ge(k, w as int, r, row as int);
                    }
                }
            }
        }
        pixel_y += 1;
    }
    proof {
        assert forall|k: int| 0 <= k < w * h && k / (w as int) >= y_start + height implies #[trigger] sprite_source(*animation, frame as int, k % w as int - x, k / w as int - y) is None by {
            lemma_row_bound(k, w as int, h as int);
        }
        assert forall|k: int| 0 <= k < w * h && k / (w as int) < y_start implies #[trigger] sprite_source(*animation, frame as int, k % w as int - x, k / w as int - y) is None by {
            vstd::arithmetic::div_mod::lemma_div_pos_is_pos(k, w as int);
        }
    }
    assert(render_buf@ =~= sprite_image(before, *render_size, x as int, y as int, *animation, frame as int));
}

proof fn lemma_row_bound(k: int, w: int, h: int)
    requires
        0 <= k < w * h,
        w >= 0,
        h >= 0,
    ensures
        w > 0,
        0 <= k / w < h,
        0 <= k % w < w,
{
    if w <= 0 {
        assert(w * h == 0) by (nonlinear_arith)
            requires
                w == 0,
        ;
    }
    vstd::arithmetic::div_mod::lemma_fundamental_div_mod(k, w);
    vstd::arithmetic::div_mod::lemma_div_pos_is_pos(k, w);
    vstd::arithmetic::div_mod::lemma_mod_bound(k, w);
    let q = k / w;
    let r = k % w;
    if q >= h {
        assert(k >= w * h) by (nonlinear_arith)
            requires
                k == w * q + r,
                r >= 0,
                q >= h,
                w > 0,
        ;
    }
}

proof fn lemma_row_lt(k: int, w: int, r: int, row: int)
    requires
        w > 0,
        r < row,
        k == r * w + k % w,
        0 <= k % w < w,
    ensures
        k < row * w,
{
    assert(r * w + w <= row * w) by (nonlinear_arith)
        requires
            r < row,
            w > 0,
    ;
}

proof fn lemma_row_ge(k: int, w: int, r: int, row: int)
    requires
        w > 0,
        r > row,
        k == r * w + k % w,
        0 <= k % w < w,
    ensures
        k >= row * w + w,
{
    assert(row * w + w <= r * w) by (nonlinear_arith)
        requires
            r > row,
            w > 0,
    ;
}

} // verus!
