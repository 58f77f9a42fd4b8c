use tile_render::resolution::{AspectRatio, ResolutionTarget, ResolutionTargetMode};

#[test]
fn pixel_perfect_takes_first_scale_in_range() {
    let t = ResolutionTarget::pixel_perfect(200, 300);
    let (render, dest) = t.compute_render_sizes(1500, 1000);
    assert_eq!(render.height, 250);
    assert_eq!(render.width, 375);
    assert_eq!(dest.width, 1500);
    assert_eq!(dest.height, 1000);
}

#[test]
fn pixel_perfect_below_range_uses_min_height() {
    let t = ResolutionTarget::pixel_perfect(400, 450);
    // 1000, 500, 333: the third scale falls below 400 first
    let (render, _) = t.compute_render_sizes(1500, 1000);
    assert_eq!(render.height, 400);
    assert_eq!(render.width, 600);
}

#[test]
fn pixel_perfect_small_window_uses_min_height() {
    let t = ResolutionTarget::pixel_perfect(200, 300);
    let (render, dest) = t.compute_render_sizes(150, 100);
    assert_eq!(render.height, 200);
    assert_eq!(render.width, 300);
    assert_eq!(dest.width, 150);
    assert_eq!(dest.height, 100);
}

#[test]
fn fixed_vertical_in_range_keeps_window_aspect() {
    let t = ResolutionTarget::fixed_vertical_resolution(240);
    assert_eq!(t.mode, ResolutionTargetMode::FixedVerticalResolution);
    let (render, dest) = t.compute_render_sizes(1600, 1000);
    assert_eq!((render.width, render.height), (384, 240));
    assert_eq!((dest.width, dest.height), (1600, 1000));
}

#[test]
fn fixed_vertical_narrow_window_shrinks_height() {
    let t = ResolutionTarget::fixed_vertical_resolution(240);
    let (render, dest) = t.compute_render_sizes(1000, 1000);
    assert_eq!((render.width, render.height), (240, 180));
    assert_eq!((dest.width, dest.height), (1000, 750));
}

#[test]
fn fixed_vertical_wide_window_shrinks_width() {
    let t = ResolutionTarget::fixed_vertical_resolution(240);
    let (render, dest) = t.compute_render_sizes(3000, 1000);
    assert_eq!((render.width, render.height), (480, 240));
    assert_eq!((dest.width, dest.height), (2000, 1000));
}

#[test]
fn custom_aspect_range() {
    let t = ResolutionTarget::fixed_vertical_resolution_with_aspect_ratio(
        100,
        AspectRatio { width: 1, height: 1 },
        AspectRatio { width: 3, height: 2 },
    );
    let (render, dest) = t.compute_render_sizes(400, 200);
    assert_eq!((render.width, render.height), (150, 100));
    assert_eq!((dest.width, dest.height), (300, 200));
    let p = ResolutionTarget::pixel_perfect_with_aspect_ratio(
        90,
        120,
        AspectRatio { width: 1, height: 1 },
        AspectRatio { width: 3, height: 2 },
    );
    // scales give 400, 200, 133, then 100; the narrow window then shrinks it
    let (render, dest) = p.compute_render_sizes(200, 400);
    assert_eq!((render.width, render.height), (50, 50));
    assert_eq!((dest.width, dest.height), (200, 200));
}
