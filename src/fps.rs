//! A frame-rate counter: frames drawn during the last whole second.

use vstd::prelude::*;
use std::time::{Duration, Instant};

verus! {

#[verifier::external_type_specification]
#[verifier::external_body]
pub struct ExInstant(Instant);

/// Relies on `Instant::now`: reads the monotonic clock. Nothing is
/// promised of the value.
pub assume_specification[ Instant::now ]() -> Instant;

/// Relies on `Instant::elapsed`: the time since the instant, which
/// saturates at zero rather than panicking.
pub assume_specification[ Instant::elapsed ](this: &Instant) -> Duration;

/// Relies on `Duration::as_secs`: the whole seconds of a duration.
pub assume_specification[ Duration::as_secs ](this: &Duration) -> u64;

pub struct FrameRateTextRenderer {
    /// When the counter was started.
    pub start_time: Instant,
    /// The whole second of the clock at the last change of second.
    pub last_elapsed_secs: u64,
    /// The frame counter at the last change of second.
    pub last_frames: usize,
    /// Frames drawn during the last whole second.
    pub frame_rate: usize,
}

impl FrameRateTextRenderer {
    /// A counter started now, with no frames counted.
    pub fn new() -> (r: FrameRateTextRenderer)
        ensures
            r.last_elapsed_secs == 0,
            r.last_frames == 0,
            r.frame_rate == 0,
    {
        FrameRateTextRenderer { start_time: Instant::now(), last_elapsed_secs: 0, last_frames: 0, frame_rate: 0 }
    }

    /// Takes the clock's whole seconds and the frame counter: when the
    /// second has changed, the rate becomes the frames counted since the
    /// last change; otherwise nothing changes.
    pub fn observe(&mut self, elapsed_secs: u64, frame: usize)
        requires
            old(self).last_frames <= frame,
        ensures
            elapsed_secs != old(self).last_elapsed_secs ==> final(self).last_elapsed_secs == elapsed_secs
                && final(self).frame_rate == frame - old(self).last_frames && final(self).last_frames
                == frame,
            elapsed_secs == old(self).last_elapsed_secs ==> final(self).last_elapsed_secs
                == old(self).last_elapsed_secs && final(self).frame_rate == old(self).frame_rate
                && final(self).last_frames == old(self).last_frames,
    {
        if elapsed_secs != self.last_elapsed_secs {
            self.last_elapsed_secs = elapsed_secs;
            self.frame_rate = frame - self.last_frames;
            self.last_frames = frame;
        }
    }

    /// Reads the clock and counts the frame counter `frame` as `observe`
    /// says, for whatever second the clock gave.
    pub fn update(&mut self, frame: usize)
        requires
            old(self).last_frames <= frame,
        ensures
            final(self).last_frames == old(self).last_frames && final(self).frame_rate == old(self).frame_rate
                || final(self).last_frames == frame && final(self).frame_rate == frame - old(self).last_frames,
            final(self).last_frames <= frame,
    {
        let elapsed_secs = self.start_time.elapsed().as_secs();
        self.observe(elapsed_secs, frame);
    }

    /// The frames drawn during the last whole second.
    pub fn frame_rate(&self) -> (r: usize)
        ensures
            r == self.frame_rate,
    {
        self.frame_rate
    }
}

/// The column at which text of `text_len` characters ends one column
/// short of the right edge of a text layer `layer_width` columns wide.
pub fn text_column(layer_width: usize, text_len: usize) -> (r: i128)
    ensures
        r == layer_width - text_len - 1,
{
    layer_width as i128 - text_len as i128 - 1
}

} // verus!
