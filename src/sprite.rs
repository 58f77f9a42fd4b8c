//! Sprite resources: named animations of packed pixel frames.

use vstd::prelude::*;
use crate::raster::{PaletteWithOffset, palette_covers, pitch_spec, valid_depth};

verus! {

/// One animation of a sprite: frames of `width` by `height` pixels at
/// `depth` bits, each shown for `frame_ticks` ticks in turn.
#[derive(Debug)]
pub struct SpriteAnimation {
    pub name: String,
    pub width: usize,
    pub height: usize,
    pub depth: usize,
    pub frames: Vec<Vec<u8>>,
    pub frame_ticks: usize,
    pub palette: Option<PaletteWithOffset>,
}

/// The pixel data that `anim` shows at animation tick `time`.
pub open spec fn animation_frame(anim: SpriteAnimation, time: int) -> Seq<u8> {
    anim.frames@[(time / anim.frame_ticks as int) % anim.frames@.len() as int]@
}

impl SpriteAnimation {
    pub open spec fn wf(self) -> bool {
        &&& valid_depth(self.depth)
        &&& self.frames@.len() >= 1
        &&& self.frame_ticks >= 1
        &&& self.width <= isize::MAX
        &&& self.height <= isize::MAX
        &&& forall|f: int|
            0 <= f < self.frames@.len() ==> self.height * pitch_spec(self.width as int, self.depth as int)
                <= #[trigger] self.frames@[f]@.len()
        &&& palette_covers(self.palette, self.depth)
    }

    /// The frame shown at animation tick `time`.
    pub fn data_for_time(&self, time: usize) -> (r: &Vec<u8>)
        requires
            self.frames@.len() >= 1,
            self.frame_ticks >= 1,
        ensures
            r@ == animation_frame(*self, time as int),
            exists|f: int| 0 <= f < self.frames@.len() && *r == self.frames@[f],
    {
        &self.frames[(time / self.frame_ticks) % self.frames.len()]
    }
}

/// A sprite resource: its animations and the one it starts with.
#[derive(Debug)]
pub struct Sprite {
    pub animations: Vec<SpriteAnimation>,
    pub default_animation: usize,
}

/// The index of the first animation named `name`, if any.
pub open spec fn find_animation(anims: Seq<SpriteAnimation>, name: Seq<char>) -> Option<usize>
    decreases anims.len(),
{
    if anims.len() == 0 {
        None
    } else if anims.last().name@ == name && find_animation(anims.drop_last(), name) is None {
        Some((anims.len() - 1) as usize)
    } else {
        find_animation(anims.drop_last(), name)
    }
}

impl Sprite {
    pub open spec fn wf(self) -> bool {
        &&& self.default_animation < self.animations@.len()
        &&& forall|i: int| 0 <= i < self.animations@.len() ==> (#[trigger] self.animations@[i]).wf()
    }

    /// The animation a newly attached sprite shows.
    pub fn get_default_animation(&self) -> (r: usize)
        ensures
            r == self.default_animation,
    {
        self.default_animation
    }

    /// The first animation named `name`.
    pub fn get_animation_by_name(&self, name: &String) -> (r: Option<usize>)
        ensures
            r == find_animation(self.animations@, name@),
            r matches Some(i) ==> i < self.animations@.len(),
    {
        let mut i: usize = 0;
        let mut found: Option<usize> = None;
        while i < self.animations.len()
            invariant
                i <= self.animations@.len(),
                found == find_animation(self.animations@.take(i as int), name@),
                found matches Some(j) ==> j < i,
            decreases self.animations@.len() - i,
        {
            assert(self.animations@.take(i + 1).drop_last() == self.animations@.take(i as int));
            if found.is_none() && self.animations[i].name == *name {
                found = Some(i);
            }
            i += 1;
        }
        assert(self.animations@.take(i as int) == self.animations@);
        found
    }
}

} // verus!
