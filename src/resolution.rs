//! Choosing the render buffer's size and the size it is shown at, from
//! the window's size and a resolution policy.

use vstd::prelude::*;
use crate::render::RenderSize;

verus! {

#[derive(Clone, Copy, Debug, PartialEq, Eq, Structural)]
pub enum ResolutionTargetMode {
    /// Render at a fixed height, scaled to the window.
    FixedVerticalResolution,
    /// Render at the height of the smallest whole scale of the window
    /// whose height lies in the allowed range.
    PixelPerfect,
}

/// The aspect ratio `width : height`, held exactly as a fraction.
#[derive(Clone, Copy, Debug, PartialEq, Eq, Structural)]
pub struct AspectRatio {
    pub width: usize,
    pub height: usize,
}

impl AspectRatio {
    pub open spec fn valid(self) -> bool {
        self.width >= 1 && self.height >= 1
    }
}

#[derive(Clone, Copy, Debug, PartialEq, Eq, Structural)]
pub struct ResolutionTarget {
    pub mode: ResolutionTargetMode,
    pub min_height: usize,
    pub max_height: usize,
    pub min_aspect_ratio: AspectRatio,
    pub max_aspect_ratio: AspectRatio,
}

/// The window's aspect ratio is narrower than `r`.
pub open spec fn narrower_than(ww: int, wh: int, r: AspectRatio) -> bool {
    ww * r.height < wh * r.width
}

/// The window's aspect ratio is wider than `r`.
pub open spec fn wider_than(ww: int, wh: int, r: AspectRatio) -> bool {
    ww * r.height > wh * r.width
}

/// The render size and the destination size, as
/// `(render width, render height, dest width, dest height)`, for a render
/// height `th`: the render width follows the window's aspect ratio, which
/// is clamped to the target's range by shrinking the render and
/// destination heights (too narrow) or widths (too wide).
pub open spec fn sizes_for_height(t: ResolutionTarget, ww: int, wh: int, th: int) -> (int, int, int, int) {
    let rw = th * ww / wh;
    let lo = t.min_aspect_ratio;
    let hi = t.max_aspect_ratio;
    let (lo_w, lo_h, hi_w, hi_h) = (lo.width as int, lo.height as int, hi.width as int, hi.height as int);
    if narrower_than(ww, wh, lo) {
        (rw, rw * lo_h / lo_w, ww, ww * lo_h / lo_w)
    } else if wider_than(ww, wh, hi) {
        (th * hi_w / hi_h, th, wh * hi_w / hi_h, wh)
    } else {
        (rw, th, ww, wh)
    }
}

/// The height of the first whole scale from `scale` on at which the
/// window height `wh` is at most `hi`, or `lo` where a scale first takes
/// it below `lo`.
pub open spec fn pixel_perfect_height(wh: int, lo: int, hi: int, scale: int) -> int
    decreases wh - scale,
{
    if scale <= 0 {
        lo
    } else if wh / scale < lo {
        lo
    } else if wh / scale <= hi {
        wh / scale
    } else if scale >= wh {
        lo
    } else {
        pixel_perfect_height(wh, lo, hi, scale + 1)
    }
}

/// The render height the target chooses for a window `wh` pixels high.
pub open spec fn target_height(t: ResolutionTarget, wh: int) -> int {
    match t.mode {
        ResolutionTargetMode::FixedVerticalResolution => t.max_height as int,
        ResolutionTargetMode::PixelPerfect => pixel_perfect_height(
            wh,
            t.min_height as int,
            t.max_height as int,
            1,
        ),
    }
}

pub open spec fn sizes_match(r: (RenderSize, RenderSize), s: (int, int, int, int)) -> bool {
    r.0.width == s.0 && r.0.height == s.1 && r.1.width == s.2 && r.1.height == s.3
}

/// 4:3.
pub open spec fn default_min_aspect() -> AspectRatio {
    AspectRatio { width: 4, height: 3 }
}

/// 18:9.
pub open spec fn default_max_aspect() -> AspectRatio {
    AspectRatio { width: 18, height: 9 }
}

impl ResolutionTarget {
    pub open spec fn valid(self) -> bool {
        self.min_aspect_ratio.valid() && self.max_aspect_ratio.valid()
    }

    /// The sizes for the window fit in `usize`.
    pub open spec fn sizes_fit(self, ww: int, wh: int) -> bool {
        let s = sizes_for_height(self, ww, wh, target_height(self, wh));
        s.0 <= usize::MAX && s.1 <= usize::MAX
    }

    /// A fixed render height, with aspect ratios clamped to 4:3 ... 18:9.
    pub fn fixed_vertical_resolution(height: usize) -> (r: ResolutionTarget)
        ensures
            r == (ResolutionTarget {
                mode: ResolutionTargetMode::FixedVerticalResolution,
                min_height: height,
                max_height: height,
                min_aspect_ratio: default_min_aspect(),
                max_aspect_ratio: default_max_aspect(),
            }),
    {
        ResolutionTarget {
            mode: ResolutionTargetMode::FixedVerticalResolution,
            min_height: height,
            max_height: height,
            min_aspect_ratio: AspectRatio { width: 4, height: 3 },
            max_aspect_ratio: AspectRatio { width: 18, height: 9 },
        }
    }

    /// A fixed render height with the given aspect-ratio range.
    pub fn fixed_vertical_resolution_with_aspect_ratio(
        height: usize,
        min_aspect_ratio: AspectRatio,
        max_aspect_ratio: AspectRatio,
    ) -> (r: ResolutionTarget)
        ensures
            r == (ResolutionTarget {
                mode: ResolutionTargetMode::FixedVerticalResolution,
                min_height: height,
                max_height: height,
                min_aspect_ratio,
                max_aspect_ratio,
            }),
    {
        ResolutionTarget {
            mode: ResolutionTargetMode::FixedVerticalResolution,
            min_height: height,
            max_height: height,
            min_aspect_ratio,
            max_aspect_ratio,
        }
    }

    /// Whole-scale rendering within a height range, with aspect ratios
    /// clamped to 4:3 ... 18:9.
    pub fn pixel_perfect(min_height: usize, max_height: usize) -> (r: ResolutionTarget)
        ensures
            r == (ResolutionTarget {
                mode: ResolutionTargetMode::PixelPerfect,
                min_height,
                max_height,
                min_aspect_ratio: default_min_aspect(),
                max_aspect_ratio: default_max_aspect(),
            }),
    {
        ResolutionTarget {
            mode: ResolutionTargetMode::PixelPerfect,
            min_height,
            max_height,
            min_aspect_ratio: AspectRatio { width: 4, height: 3 },
            max_aspect_ratio: AspectRatio { width: 18, height: 9 },
        }
    }

    /// Whole-scale rendering within a height range, with the given
    /// aspect-ratio range.
    pub fn pixel_perfect_with_aspect_ratio(
        min_height: usize,
        max_height: usize,
        min_aspect_ratio: AspectRatio,
        max_aspect_ratio: AspectRatio,
    ) -> (r: ResolutionTarget)
        ensures
            r == (ResolutionTarget {
                mode: ResolutionTargetMode::PixelPerfect,
                min_height,
                max_height,
                min_aspect_ratio,
                max_aspect_ratio,
            }),
    {
        ResolutionTarget {
            mode: ResolutionTargetMode::PixelPerfect,
            min_height,
            max_height,
            min_aspect_ratio,
            max_aspect_ratio,
        }
    }

    fn compute_render_size_for_height(&self, window_width: usize, window_height: usize, target_height: usize) -> (r: (RenderSize, RenderSize))
        requires
            self.valid(),
            window_height >= 1,
            sizes_for_height(*self, window_width as int, window_height as int, target_height as int).0 <= usize::MAX,
            sizes_for_height(*self, window_width as int, window_height as int, target_height as int).1 <= usize::MAX,
        ensures
            sizes_match(r, sizes_for_height(*self, window_width as int, window_height as int, target_height as int)),
    {
        let ww = window_width as u128;
        let wh = window_height as u128;
        let th = target_height as u128;
        let lo_w = self.min_aspect_ratio.width as u128;
        let lo_h = self.min_aspect_ratio.height as u128;
        let hi_w = self.max_aspect_ratio.width as u128;
        let hi_h = self.max_aspect_ratio.height as u128;
        proof {
            lemma_product_fits(th as int, ww as int);
            lemma_product_fits(ww as int, lo_h as int);
            lemma_product_fits(wh as int, lo_w as int);
            lemma_product_fits(ww as int, hi_h as int);
            lemma_product_fits(wh as int, hi_w as int);
            lemma_product_fits(th as int, hi_w as int);
        }
        let mut render_height = target_height;
        let mut render_width = th * ww / wh;
        let mut dest_width = window_width;
        let mut dest_height = window_height;
        if ww * lo_h < wh * lo_w {
            proof {
                lemma_product_fits(render_width as int, lo_h as int);
                lemma_quotient_below(ww as int, lo_h as int, lo_w as int);
                lemma_div_below((ww * lo_h) as int, lo_w as int, wh as int);
            }
            render_height = (render_width * lo_h / lo_w) as usize;
            dest_height = (ww * lo_h / lo_w) as usize;
        } else if ww * hi_h > wh * hi_w {
            proof {
                lemma_quotient_below(wh as int, hi_w as int, hi_h as int);
                lemma_div_below((wh * hi_w) as int, hi_h as int, ww as int);
            }
            render_width = th * hi_w / hi_h;
            dest_width = (wh * hi_w / hi_h) as usize;
        }
        (
            RenderSize { width: render_width as usize, height: render_height },
            RenderSize { width: dest_width, height: dest_height },
        )
    }

    /// The render buffer's size and the size it is shown at, for a window
    /// of `window_width` by `window_height` pixels.
    pub fn compute_render_sizes(&self, window_width: usize, window_height: usize) -> (r: (RenderSize, RenderSize))
        requires
            self.valid(),
            window_height >= 1,
            self.sizes_fit(window_width as int, window_height as int),
        ensures
            sizes_match(
                r,
                sizes_for_height(
                    *self,
                    window_width as int,
                    window_height as int,
                    target_height(*self, window_height as int),
                ),
            ),
    {
        match self.mode {
            ResolutionTargetMode::FixedVerticalResolution => {
                self.compute_render_size_for_height(window_width, window_height, self.max_height)
            },
            ResolutionTargetMode::PixelPerfect => {
                let mut target_height = self.min_height;
                let mut scale: usize = 1;
                let mut done = false;
                while !done
                    invariant
                        1 <= scale <= window_height,
                        done ==> target_height == pixel_perfect_height(
                            window_height as int,
                            self.min_height as int,
                            self.max_height as int,
                            1,
                        ),
                        !done ==> pixel_perfect_height(
                            window_height as int,
                            self.min_height as int,
                            self.max_height as int,
                            1,
                        ) == pixel_perfect_height(
                            window_height as int,
                            self.min_height as int,
                            self.max_height as int,
                            scale as int,
                        ),
                    decreases window_height - scale + (if done {
                        0int
                    } else {
                        1int
                    }),
                {
                    let pre_scaled_height = window_height / scale;
                    if pre_scaled_height < self.min_height {
                        target_height = self.min_height;
                        done = true;
                    } else if pre_scaled_height <= self.max_height {
                        target_height = pre_scaled_height;
                        done = true;
                    } else if scale >= window_height {
                        target_height = self.min_height;
                        done = true;
                    } else {
                        scale += 1;
                    }
                }
                self.compute_render_size_for_height(window_width, window_height, target_height)
            },
        }
    }
}

proof fn lemma_product_fits(a: int, b: int)
    requires
        0 <= a <= usize::MAX,
        0 <= b <= usize::MAX,
    ensures
        0 <= a * b <= u128::MAX,
{
    assert(0 <= a * b <= 0xffff_ffff_ffff_ffff * 0xffff_ffff_ffff_ffff) by (nonlinear_arith)
        requires
            0 <= a <= 0xffff_ffff_ffff_ffff,
            0 <= b <= 0xffff_ffff_ffff_ffff,
    ;
}

proof fn lemma_div_below(x: int, c: int, bound: int)
    requires
        0 <= x < bound * c,
        c >= 1,
    ensures
        x / c < bound,
{
    vstd::arithmetic::div_mod::lemma_fundamental_div_mod(x, c);
    vstd::arithmetic::div_mod::lemma_mod_bound(x, c);
    let q = x / c;
    let r = x % c;
    if q >= bound {
        assert(x >= bound * c) by (nonlinear_arith)
            requires
                x == c * q + r,
                r >= 0,
                q >= bound,
                c >= 1,
        ;
    }
}

proof fn lemma_quotient_below(a: int, b: int, c: int)
    requires
        0 <= a <= usize::MAX,
        0 <= b,
        c >= 1,
    ensures
        0 <= a * b / c,
{
    assert(0 <= a * b) by (nonlinear_arith)
        requires
            0 <= a,
            0 <= b,
    ;
    vstd::arithmetic::div_mod::lemma_div_pos_is_pos(a * b, c);
}

} // verus!
