use tile_render::fps::{text_column, FrameRateTextRenderer};

#[test]
fn new_counter_is_empty() {
    let r = FrameRateTextRenderer::new();
    assert_eq!(r.frame_rate(), 0);
    assert_eq!(r.last_frames, 0);
    assert_eq!(r.last_elapsed_secs, 0);
}

#[test]
fn observe_counts_frames_per_second() {
    let mut r = FrameRateTextRenderer::new();
    r.observe(0, 30);
    assert_eq!(r.frame_rate(), 0);
    r.observe(1, 60);
    assert_eq!(r.frame_rate(), 60);
    r.observe(1, 90);
    assert_eq!(r.frame_rate(), 60);
    r.observe(2, 118);
    assert_eq!(r.frame_rate(), 58);
    assert_eq!(r.last_frames, 118);
}

#[test]
fn update_keeps_frames_consistent() {
    let mut r = FrameRateTextRenderer::new();
    r.update(10);
    assert!(r.last_frames <= 10);
}

#[test]
fn text_column_right_aligns() {
    assert_eq!(text_column(40, 6), 33);
    assert_eq!(text_column(3, 6), -4);
}
