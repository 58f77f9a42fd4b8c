//! Actors: 16.8 fixed-point motion swept against the map's collision
//! geometry one axis at a time, and the sprites attached to them.

use vstd::prelude::*;
use vstd::arithmetic::div_mod::lemma_fundamental_div_mod_converse;
use crate::sprite::{Sprite, find_animation};

verus! {

#[derive(Clone, Copy, Debug, PartialEq, Eq, Structural)]
pub struct BoundingRect {
    pub x: isize,
    pub y: isize,
    pub width: isize,
    pub height: isize,
}

/// A sprite attached to an actor: which sprite of the sprite table, which
/// of its animations, the animation's tick, and the offset from the actor.
#[derive(Clone, Copy, Debug, PartialEq, Eq, Structural)]
pub struct SpriteWithOffset {
    pub sprite: usize,
    pub animation: usize,
    pub animation_frame: usize,
    pub x_offset: isize,
    pub y_offset: isize,
}

/// Position `(x, y)` in pixels with a 1/256 pixel remainder on each axis,
/// velocity in 1/256 pixels per tick, collision box and sprites.
#[derive(Debug)]
pub struct ActorInfo {
    pub x: isize,
    pub y: isize,
    pub subpixel_x: u8,
    pub subpixel_y: u8,
    pub velocity_x: isize,
    pub velocity_y: isize,
    pub collision_bounds: Option<BoundingRect>,
    pub sprites: Vec<SpriteWithOffset>,
}

/// The collision box relative to the actor: the one set, else one pixel
/// at the origin.
pub open spec fn collision_box(bounds: Option<BoundingRect>) -> BoundingRect {
    match bounds {
        Some(b) => b,
        None => BoundingRect { x: 0, y: 0, width: 1, height: 1 },
    }
}

pub open spec fn fits_isize(v: int) -> bool {
    isize::MIN <= v <= isize::MAX
}

/// `v` lies between `a` and `b`, in either order.
pub open spec fn between(v: int, a: int, b: int) -> bool {
    (a <= v <= b) || (b <= v <= a)
}

/// A sprite after a request to start an animation: it switches to the
/// animation found, from its first tick, unless that one already runs.
pub open spec fn restarted(s: SpriteWithOffset, found: Option<usize>) -> SpriteWithOffset {
    match found {
        Some(a) => if a != s.animation {
            SpriteWithOffset { animation: a, animation_frame: 0, ..s }
        } else {
            s
        },
        None => s,
    }
}

impl ActorInfo {
    pub open spec fn cbox(self) -> BoundingRect {
        collision_box(self.collision_bounds)
    }

    /// Position on the x axis in 1/256 pixels.
    pub open spec fn fixed_x(self) -> int {
        self.x * 256 + self.subpixel_x
    }

    pub open spec fn fixed_y(self) -> int {
        self.y * 256 + self.subpixel_y
    }

    /// Where the velocity takes the actor on the x axis, in 1/256 pixels.
    pub open spec fn target_fixed_x(self) -> int {
        self.fixed_x() + self.velocity_x
    }

    pub open spec fn target_fixed_y(self) -> int {
        self.fixed_y() + self.velocity_y
    }

    /// The whole pixel the velocity takes the actor to on the x axis.
    pub open spec fn candidate_x(self) -> int {
        self.target_fixed_x() / 256
    }

    pub open spec fn candidate_y(self) -> int {
        self.target_fixed_y() / 256
    }

    /// The collision rectangle of the actor standing at `(x, y)`.
    pub open spec fn rect_at(self, x: int, y: int) -> BoundingRect {
        BoundingRect {
            x: (x + self.cbox().x) as isize,
            y: (y + self.cbox().y) as isize,
            width: self.cbox().width,
            height: self.cbox().height,
        }
    }

    /// The rectangle and target edge the x sweep is asked about.
    pub open spec fn sweep_x_query(self) -> (BoundingRect, isize) {
        (self.rect_at(self.x as int, self.y as int), (self.candidate_x() + self.cbox().x) as isize)
    }

    /// The pixel x the actor reaches, given what the x sweep returned.
    pub open spec fn resolved_x(self, revised_x: Option<isize>) -> int {
        match revised_x {
            Some(r) => r - self.cbox().x,
            None => self.candidate_x(),
        }
    }

    /// The rectangle and target edge the y sweep is asked about: the
    /// rectangle already stands at the x the x sweep allowed.
    pub open spec fn sweep_y_query(self, revised_x: Option<isize>) -> (BoundingRect, isize) {
        (
            self.rect_at(self.resolved_x(revised_x), self.y as int),
            (self.candidate_y() + self.cbox().y) as isize,
        )
    }

    /// The position reached on the x axis in 1/256 pixels: a blocked
    /// axis stops at the whole pixel the sweep allowed.
    pub open spec fn final_fixed_x(self, revised_x: Option<isize>) -> int {
        match revised_x {
            Some(r) => (r - self.cbox().x) * 256,
            None => self.target_fixed_x(),
        }
    }

    pub open spec fn final_fixed_y(self, revised_y: Option<isize>) -> int {
        match revised_y {
            Some(r) => (r - self.cbox().y) * 256,
            None => self.target_fixed_y(),
        }
    }

    /// The motion of one tick stays within the range of `isize`.
    pub open spec fn move_fits(self) -> bool {
        &&& fits_isize(self.x * 256)
        &&& fits_isize(self.y * 256)
        &&& fits_isize(self.target_fixed_x())
        &&& fits_isize(self.target_fixed_y())
        &&& fits_isize(self.candidate_x() * 256)
        &&& fits_isize(self.candidate_y() * 256)
        &&& fits_isize(self.x + self.cbox().x)
        &&& fits_isize(self.y + self.cbox().y)
        &&& fits_isize(self.candidate_x() + self.cbox().x)
        &&& fits_isize(self.candidate_y() + self.cbox().y)
    }

    /// The sweeps returned an edge between the rectangle and the target,
    /// as the map promises.
    pub open spec fn sweeps_in_range(self, revised_x: Option<isize>, revised_y: Option<isize>) -> bool {
        &&& revised_x matches Some(r) ==> between(
            r as int,
            self.sweep_x_query().0.x as int,
            self.sweep_x_query().1 as int,
        )
        &&& revised_y matches Some(r) ==> between(
            r as int,
            self.sweep_y_query(revised_x).0.y as int,
            self.sweep_y_query(revised_x).1 as int,
        )
    }

    /// Whether the motion of one tick stays within the range of `isize`,
    /// as `apply_move` and the sweep requests require.
    pub fn can_move(&self) -> (r: bool)
        ensures
            r == self.move_fits(),
    {
        let b = self.collision_offsets();
        let lo = isize::MIN as i128;
        let hi = isize::MAX as i128;
        let x = self.x as i128;
        let y = self.y as i128;
        let target_x = x * 256 + self.subpixel_x as i128 + self.velocity_x as i128;
        let target_y = y * 256 + self.subpixel_y as i128 + self.velocity_y as i128;
        let cand_x = floor_div_256(target_x);
        let cand_y = floor_div_256(target_y);
        let in_range = |v: i128| -> (r: bool)
            ensures
                r == fits_isize(v as int),
            { lo <= v && v <= hi };
        in_range(x * 256) && in_range(y * 256) && in_range(target_x) && in_range(target_y)
            && in_range(cand_x * 256) && in_range(cand_y * 256) && in_range(x + b.x as i128)
            && in_range(y + b.y as i128) && in_range(cand_x + b.x as i128) && in_range(cand_y + b.y as i128)
    }

    /// An actor at rest at `(x, y)` with no collision box and no sprites.
    pub fn new(x: isize, y: isize) -> (r: ActorInfo)
        ensures
            r.x == x,
            r.y == y,
            r.subpixel_x == 0,
            r.subpixel_y == 0,
            r.velocity_x == 0,
            r.velocity_y == 0,
            r.collision_bounds is None,
            r.sprites@.len() == 0,
    {
        ActorInfo {
            x,
            y,
            subpixel_x: 0,
            subpixel_y: 0,
            velocity_x: 0,
            velocity_y: 0,
            collision_bounds: None,
            sprites: Vec::new(),
        }
    }

    fn collision_offsets(&self) -> (r: BoundingRect)
        ensures
            r == self.cbox(),
    {
        match &self.collision_bounds {
            Some(b) => *b,
            None => BoundingRect { x: 0, y: 0, width: 1, height: 1 },
        }
    }

    /// The rectangle and target x to hand to the map's x sweep.
    pub fn sweep_x_request(&self) -> (r: (BoundingRect, isize))
        requires
            self.move_fits(),
        ensures
            r == self.sweep_x_query(),
    {
        let b = self.collision_offsets();
        let full_x = self.x * 256 + self.subpixel_x as isize + self.velocity_x;
        let (new_x, _) = split_fixed(full_x);
        (
            BoundingRect { x: self.x + b.x, y: self.y + b.y, width: b.width, height: b.height },
            new_x + b.x,
        )
    }

    /// The rectangle and target y to hand to the map's y sweep, given
    /// what the x sweep returned: the rectangle stands at the resolved x.
    pub fn sweep_y_request(&self, revised_x: Option<isize>) -> (r: (BoundingRect, isize))
        requires
            self.move_fits(),
            self.sweeps_in_range(revised_x, None),
        ensures
            r == self.sweep_y_query(revised_x),
    {
        let b = self.collision_offsets();
        let full_x = self.x * 256 + self.subpixel_x as isize + self.velocity_x;
        let full_y = self.y * 256 + self.subpixel_y as isize + self.velocity_y;
        let (mut new_x, _) = split_fixed(full_x);
        let (new_y, _) = split_fixed(full_y);
        if let Some(rx) = revised_x {
            new_x = rx - b.x;
        }
        (
            BoundingRect { x: new_x + b.x, y: self.y + b.y, width: b.width, height: b.height },
            new_y + b.y,
        )
    }

    /// Advances the actor by its velocity for one tick, given what the
    /// map's sweeps returned for `sweep_x_request` and `sweep_y_request`.
    /// An axis whose sweep returned an edge stops there, at a whole pixel,
    /// and loses its velocity.
    pub fn apply_move(&mut self, revised_x: Option<isize>, revised_y: Option<isize>)
        requires
            old(self).move_fits(),
            old(self).sweeps_in_range(revised_x, revised_y),
        ensures
            final(self).x == old(self).final_fixed_x(revised_x) / 256,
            final(self).subpixel_x == old(self).final_fixed_x(revised_x) % 256,
            final(self).y == old(self).final_fixed_y(revised_y) / 256,
            final(self).subpixel_y == old(self).final_fixed_y(revised_y) % 256,
            final(self).velocity_x == (if revised_x is Some {
                0
            } else {
                old(self).velocity_x
            }),
            final(self).velocity_y == (if revised_y is Some {
                0
            } else {
                old(self).velocity_y
            }),
            final(self).collision_bounds == old(self).collision_bounds,
            final(self).sprites@ == old(self).sprites@,
    {
        let b = self.collision_offsets();
        let mut full_x = self.x * 256 + self.subpixel_x as isize + self.velocity_x;
        let mut full_y = self.y * 256 + self.subpixel_y as isize + self.velocity_y;
        let (mut new_x, _) = split_fixed(full_x);
        let (mut new_y, _) = split_fixed(full_y);

        if let Some(rx) = revised_x {
            new_x = rx - b.x;
            full_x = new_x * 256;
            self.velocity_x = 0;
        }
        if let Some(ry) = revised_y {
            new_y = ry - b.y;
            full_y = new_y * 256;
            self.velocity_y = 0;
        }

        let (px, sx) = split_fixed(full_x);
        let (py, sy) = split_fixed(full_y);
        self.x = px;
        self.y = py;
        self.subpixel_x = sx;
        self.subpixel_y = sy;
    }

    /// Attaches `sprite` of the sprite table at an offset from the actor,
    /// showing the sprite's default animation from its first tick.
    pub fn add_sprite(&mut self, sprites: &Vec<Sprite>, sprite: usize, x_offset: isize, y_offset: isize)
        requires
            sprite < sprites@.len(),
        ensures
            final(self).sprites@ == old(self).sprites@.push(
                SpriteWithOffset {
                    sprite,
                    animation: sprites@[sprite as int].default_animation,
                    animation_frame: 0,
                    x_offset,
                    y_offset,
                },
            ),
            final(self).x == old(self).x,
            final(self).y == old(self).y,
            final(self).subpixel_x == old(self).subpixel_x,
            final(self).subpixel_y == old(self).subpixel_y,
            final(self).velocity_x == old(self).velocity_x,
            final(self).velocity_y == old(self).velocity_y,
            final(self).collision_bounds == old(self).collision_bounds,
    {
        let animation = sprites[sprite].get_default_animation();
        self.sprites.push(SpriteWithOffset { sprite, animation, animation_frame: 0, x_offset, y_offset });
    }

    /// Switches every attached sprite whose resource has an animation
    /// named `name` to it; a sprite already showing it keeps its tick.
    pub fn start_animation(&mut self, sprites: &Vec<Sprite>, name: &String)
        requires
            forall|i: int|
                0 <= i < old(self).sprites@.len() ==> (#[trigger] old(self).sprites@[i]).sprite
                    < sprites@.len(),
        ensures
            final(self).sprites@.len() == old(self).sprites@.len(),
            forall|i: int|
                0 <= i < old(self).sprites@.len() ==> #[trigger] final(self).sprites@[i] == restarted(
                    old(self).sprites@[i],
                    find_animation(sprites@[old(self).sprites@[i].sprite as int].animations@, name@),
                ),
            final(self).x == old(self).x,
            final(self).y == old(self).y,
            final(self).subpixel_x == old(self).subpixel_x,
            final(self).subpixel_y == old(self).subpixel_y,
            final(self).velocity_x == old(self).velocity_x,
            final(self).velocity_y == old(self).velocity_y,
            final(self).collision_bounds == old(self).collision_bounds,
    {
        let n = self.sprites.len();
        let mut i: usize = 0;
        while i < n
            invariant
                n == old(self).sprites@.len(),
                i <= n,
                self.sprites@.len() == n,
                forall|j: int|
                    0 <= j < old(self).sprites@.len() ==> (#[trigger] old(self).sprites@[j]).sprite
                        < sprites@.len(),
                forall|j: int|
                    0 <= j < i ==> #[trigger] self.sprites@[j] == restarted(
                        old(self).sprites@[j],
                        find_animation(sprites@[old(self).sprites@[j].sprite as int].animations@, name@),
                    ),
                forall|j: int| i <= j < n ==> #[trigger] self.sprites@[j] == old(self).sprites@[j],
                self.x == old(self).x,
                self.y == old(self).y,
                self.subpixel_x == old(self).subpixel_x,
                self.subpixel_y == old(self).subpixel_y,
                self.velocity_x == old(self).velocity_x,
                self.velocity_y == old(self).velocity_y,
                self.collision_bounds == old(self).collision_bounds,
            decreases n - i,
        {
            let mut s = self.sprites[i];
            if let Some(animation) = sprites[s.sprite].get_animation_by_name(name) {
                if animation != s.animation {
                    s.animation = animation;
                    s.animation_frame = 0;
                }
            }
            self.sprites.set(i, s);
            i += 1;
        }
    }

    /// Sets or replaces the collision box.
    pub fn set_collision_bounds(&mut self, bounds: BoundingRect)
        ensures
            final(self).collision_bounds == Some(bounds),
            final(self).x == old(self).x,
            final(self).y == old(self).y,
            final(self).subpixel_x == old(self).subpixel_x,
            final(self).subpixel_y == old(self).subpixel_y,
            final(self).velocity_x == old(self).velocity_x,
            final(self).velocity_y == old(self).velocity_y,
            final(self).sprites@ == old(self).sprites@,
    {
        self.collision_bounds = Some(bounds);
    }
}

/// An axis whose sweep returned an edge ends the tick on that edge: the
/// actor's pixel is the edge less the collision offset, with no remainder.
pub proof fn lemma_blocked_x_stops_at_edge(info: ActorInfo, revised: isize, revised_y: Option<isize>)
    requires
        info.move_fits(),
        info.sweeps_in_range(Some(revised), revised_y),
    ensures
        info.final_fixed_x(Some(revised)) / 256 == revised - info.cbox().x,
        info.final_fixed_x(Some(revised)) % 256 == 0,
{
    lemma_fundamental_div_mod_converse(info.final_fixed_x(Some(revised)), 256, revised - info.cbox().x, 0);
}

/// The same holds of the y axis.
pub proof fn lemma_blocked_y_stops_at_edge(info: ActorInfo, revised_x: Option<isize>, revised: isize)
    requires
        info.move_fits(),
        info.sweeps_in_range(revised_x, Some(revised)),
    ensures
        info.final_fixed_y(Some(revised)) / 256 == revised - info.cbox().y,
        info.final_fixed_y(Some(revised)) % 256 == 0,
{
    lemma_fundamental_div_mod_converse(info.final_fixed_y(Some(revised)), 256, revised - info.cbox().y, 0);
}

/// The y sweep is asked about the rectangle that the x sweep corrected,
/// not the one the tick started with: where the x sweep stopped short of
/// its target, the y sweep sees a rectangle at another x than it would
/// have seen without the correction.
pub proof fn lemma_y_sweep_after_x_correction(info: ActorInfo, revised: isize)
    requires
        info.move_fits(),
        info.sweeps_in_range(Some(revised), None),
    ensures
        info.sweep_y_query(Some(revised)).0.x == revised,
        info.sweep_y_query(None).0.x == info.sweep_x_query().1,
        revised != info.sweep_x_query().1 ==> info.sweep_y_query(Some(revised)).0 != info.sweep_y_query(
            None,
        ).0,
{
}

/// Division by 256 rounding toward negative infinity.
fn floor_div_256(v: i128) -> (r: i128)
    requires
        -0x1_0000_0000_0000_0000_0000 <= v <= 0x1_0000_0000_0000_0000_0000,
    ensures
        r == v / 256,
        -0x1_0000_0000_0000_0000_0000 <= r <= 0x1_0000_0000_0000_0000_0000,
{
    if v >= 0 {
        ((v as u128) / 256) as i128
    } else {
        let u = (-(v + 1)) as u128;
        let q = u / 256;
        let r = u % 256;
        proof {
            lemma_fundamental_div_mod_converse(u as int, 256, q as int, r as int);
            lemma_fundamental_div_mod_converse(v as int, 256, -(q as int) - 1, 255 - r);
        }
        -(q as i128) - 1
    }
}

/// Splits a 16.8 fixed-point value into its whole pixel (rounded toward
/// negative infinity) and its 1/256 remainder.
fn split_fixed(v: isize) -> (r: (isize, u8))
    ensures
        r.0 == v / 256,
        r.1 == v % 256,
{
    if v >= 0 {
        let u = v as usize;
        ((u / 256) as isize, (u % 256) as u8)
    } else {
        let u = (-(v + 1)) as usize;
        let q = u / 256;
        let r = u % 256;
        proof {
            lemma_fundamental_div_mod_converse(u as int, 256, q as int, r as int);
            lemma_fundamental_div_mod_converse(v as int, 256, -(q as int) - 1, 255 - r);
        }
        (-(q as isize) - 1, (255 - r) as u8)
    }
}

} // verus!
