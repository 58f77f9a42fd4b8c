//! One frame: background, map layers, centred UI layers, then the
//! sprites of every actor, each drawn over what came before.

use vstd::prelude::*;
use crate::actor::{ActorInfo, SpriteWithOffset, fits_isize};
use crate::render::{
    RenderSize, layer_image, layer_scroll_fits, render_layer, render_sprite, sprite_image,
    sprite_source,
};
use crate::sprite::{Sprite, SpriteAnimation};
use crate::tiles::MapLayer;

verus! {

#[derive(Debug)]
pub struct GameMap {
    pub background_color: u16,
    pub layers: Vec<MapLayer>,
}

/// What one frame shows: the tick, the view's scroll, the map, the UI
/// layers (each already brought up to date for this frame), the actors
/// and the sprite table their sprites name.
#[derive(Debug)]
pub struct GameState {
    pub frame: usize,
    pub scroll_x: isize,
    pub scroll_y: isize,
    pub map: GameMap,
    pub ui_layers: Vec<MapLayer>,
    pub actors: Vec<ActorInfo>,
    pub sprites: Vec<Sprite>,
}

/// Division by 2 truncating toward zero.
pub open spec fn trunc_div_2(v: int) -> int {
    if v >= 0 {
        v / 2
    } else {
        -((-v) / 2)
    }
}

/// The scroll that centres `extent` pixels in a view of `view` pixels;
/// negative where the view is the larger.
pub open spec fn centered_scroll(view: int, extent: int) -> int {
    trunc_div_2(view - extent)
}

pub open spec fn ui_scroll_x(size: RenderSize, layer: MapLayer) -> int {
    centered_scroll(size.width as int, layer.pixel_width())
}

pub open spec fn ui_scroll_y(size: RenderSize, layer: MapLayer) -> int {
    centered_scroll(size.height as int, layer.pixel_height())
}

/// A buffer of `len` pixels of one colour.
pub open spec fn cleared(len: nat, color: u16) -> Seq<u16> {
    Seq::new(len, |k: int| color)
}

/// `layers` drawn in order over `base` at the view's scroll.
pub open spec fn map_layers_image(
    base: Seq<u16>,
    size: RenderSize,
    layers: Seq<MapLayer>,
    time: int,
    scroll_x: int,
    scroll_y: int,
) -> Seq<u16>
    decreases layers.len(),
{
    if layers.len() == 0 {
        base
    } else {
        layer_image(
            map_layers_image(base, size, layers.drop_last(), time, scroll_x, scroll_y),
            size,
            layers.last(),
            time,
            scroll_x,
            scroll_y,
        )
    }
}

/// UI `layers` drawn in order over `base`, each centred in the view.
pub open spec fn ui_layers_image(base: Seq<u16>, size: RenderSize, layers: Seq<MapLayer>, time: int) -> Seq<u16>
    decreases layers.len(),
{
    if layers.len() == 0 {
        base
    } else {
        layer_image(
            ui_layers_image(base, size, layers.drop_last(), time),
            size,
            layers.last(),
            time,
            ui_scroll_x(size, layers.last()),
            ui_scroll_y(size, layers.last()),
        )
    }
}

/// The animation that an attached sprite shows.
pub open spec fn shown_animation(sprites: Seq<Sprite>, s: SpriteWithOffset) -> SpriteAnimation {
    sprites[s.sprite as int].animations@[s.animation as int]
}

/// The attached sprites `ss` of actor `a` drawn in order over `base`, at
/// the actor's position plus each sprite's offset, less the view's scroll.
pub open spec fn actor_sprites_image(
    base: Seq<u16>,
    size: RenderSize,
    game: GameState,
    a: ActorInfo,
    ss: Seq<SpriteWithOffset>,
) -> Seq<u16>
    decreases ss.len(),
{
    if ss.len() == 0 {
        base
    } else {
        sprite_image(
            actor_sprites_image(base, size, game, a, ss.drop_last()),
            size,
            a.x + ss.last().x_offset - game.scroll_x,
            a.y + ss.last().y_offset - game.scroll_y,
            shown_animation(game.sprites@, ss.last()),
            ss.last().animation_frame as int,
        )
    }
}

/// The sprites of `actors` drawn in order over `base`.
pub open spec fn actors_image(base: Seq<u16>, size: RenderSize, game: GameState, actors: Seq<ActorInfo>) -> Seq<u16>
    decreases actors.len(),
{
    if actors.len() == 0 {
        base
    } else {
        actor_sprites_image(
            actors_image(base, size, game, actors.drop_last()),
            size,
            game,
            actors.last(),
            actors.last().sprites@,
        )
    }
}

/// The whole frame drawn over a buffer of `len` pixels.
pub open spec fn frame_image(game: GameState, size: RenderSize, len: nat) -> Seq<u16> {
    let t = game.frame as int;
    let base = cleared(len, game.map.background_color);
    let with_map = map_layers_image(base, size, game.map.layers@, t, game.scroll_x as int, game.scroll_y as int);
    let with_ui = ui_layers_image(with_map, size, game.ui_layers@, t);
    actors_image(with_ui, size, game, game.actors@)
}

impl GameState {
    /// Everything the frame names is well formed, every sprite names an
    /// animation of the table, and every scroll and sprite position lies
    /// in the addressable range.
    pub open spec fn renderable(self, size: RenderSize) -> bool {
        &&& forall|i: int|
            0 <= i < self.map.layers@.len() ==> (#[trigger] self.map.layers@[i]).wf() && layer_scroll_fits(
                self.map.layers@[i],
                size,
                self.scroll_x as int,
                self.scroll_y as int,
                self.frame as int,
            )
        &&& forall|i: int|
            0 <= i < self.ui_layers@.len() ==> (#[trigger] self.ui_layers@[i]).wf() && layer_scroll_fits(
                self.ui_layers@[i],
                size,
                ui_scroll_x(size, self.ui_layers@[i]),
                ui_scroll_y(size, self.ui_layers@[i]),
                self.frame as int,
            )
        &&& forall|i: int| 0 <= i < self.sprites@.len() ==> (#[trigger] self.sprites@[i]).wf()
        &&& forall|i: int, j: int|
            0 <= i < self.actors@.len() && 0 <= j < self.actors@[i].sprites@.len()
                ==> self.sprite_drawable(self.actors@[i], #[trigger] self.actors@[i].sprites@[j])
    }

    pub open spec fn sprite_drawable(self, a: ActorInfo, s: SpriteWithOffset) -> bool {
        &&& s.sprite < self.sprites@.len()
        &&& s.animation < self.sprites@[s.sprite as int].animations@.len()
        &&& fits_isize(a.x + s.x_offset)
        &&& fits_isize(a.y + s.y_offset)
        &&& fits_isize(a.x + s.x_offset - self.scroll_x)
        &&& fits_isize(a.y + s.y_offset - self.scroll_y)
    }
}

proof fn lemma_map_layers_len(base: Seq<u16>, size: RenderSize, layers: Seq<MapLayer>, time: int, sx: int, sy: int)
    ensures
        map_layers_image(base, size, layers, time, sx, sy).len() == base.len(),
    decreases layers.len(),
{
    if layers.len() > 0 {
        lemma_map_layers_len(base, size, layers.drop_last(), time, sx, sy);
    }
}

proof fn lemma_ui_layers_len(base: Seq<u16>, size: RenderSize, layers: Seq<MapLayer>, time: int)
    ensures
        ui_layers_image(base, size, layers, time).len() == base.len(),
    decreases layers.len(),
{
    if layers.len() > 0 {
        lemma_ui_layers_len(base, size, layers.drop_last(), time);
    }
}

proof fn lemma_actor_sprites_len(base: Seq<u16>, size: RenderSize, game: GameState, a: ActorInfo, ss: Seq<SpriteWithOffset>)
    ensures
        actor_sprites_image(base, size, game, a, ss).len() == base.len(),
    decreases ss.len(),
{
    if ss.len() > 0 {
        lemma_actor_sprites_len(base, size, game, a, ss.drop_last());
    }
}

proof fn lemma_actors_len(base: Seq<u16>, size: RenderSize, game: GameState, actors: Seq<ActorInfo>)
    ensures
        actors_image(base, size, game, actors).len() == base.len(),
    decreases actors.len(),
{
    if actors.len() > 0 {
        lemma_actors_len(base, size, game, actors.drop_last());
        lemma_actor_sprites_len(
            actors_image(base, size, game, actors.drop_last()),
            size,
            game,
            actors.last(),
            actors.last().sprites@,
        );
    }
}

/// Sprites are drawn last and replace what is under them: where the last
/// sprite of the last actor has an opaque pixel, the frame shows that
/// pixel's colour, whatever the map and UI layers drew there.
pub proof fn lemma_last_sprite_on_top(game: GameState, size: RenderSize, k: int)
    requires
        0 <= k < size.area(),
        game.actors@.len() > 0,
        game.actors@.last().sprites@.len() > 0,
        sprite_source(
            shown_animation(game.sprites@, game.actors@.last().sprites@.last()),
            game.actors@.last().sprites@.last().animation_frame as int,
            k % size.width as int - (game.actors@.last().x + game.actors@.last().sprites@.last().x_offset
                - game.scroll_x),
            k / size.width as int - (game.actors@.last().y + game.actors@.last().sprites@.last().y_offset
                - game.scroll_y),
        ) is Some,
    ensures
        frame_image(game, size, size.area() as nat)[k] == sprite_source(
            shown_animation(game.sprites@, game.actors@.last().sprites@.last()),
            game.actors@.last().sprites@.last().animation_frame as int,
            k % size.width as int - (game.actors@.last().x + game.actors@.last().sprites@.last().x_offset
                - game.scroll_x),
            k / size.width as int - (game.actors@.last().y + game.actors@.last().sprites@.last().y_offset
                - game.scroll_y),
        )->Some_0,
{
    let t = game.frame as int;
    let base = cleared(size.area() as nat, game.map.background_color);
    let with_map = map_layers_image(base, size, game.map.layers@, t, game.scroll_x as int, game.scroll_y as int);
    let with_ui = ui_layers_image(with_map, size, game.ui_layers@, t);
    let actors = game.actors@;
    let a = actors.last();
    lemma_map_layers_len(base, size, game.map.layers@, t, game.scroll_x as int, game.scroll_y as int);
    lemma_ui_layers_len(with_map, size, game.ui_layers@, t);
    let before_actor = actors_image(with_ui, size, game, actors.drop_last());
    lemma_actors_len(with_ui, size, game, actors.drop_last());
    lemma_actor_sprites_len(before_actor, size, game, a, a.sprites@.drop_last());
}

/// The scroll that centres `extent` pixels in a view of `view` pixels.
fn centered(view: usize, extent: usize) -> (r: isize)
    ensures
        r == centered_scroll(view as int, extent as int),
{
    let d = view as i128 - extent as i128;
    let c: i128 = if d >= 0 {
        ((d as u128) / 2) as i128
    } else {
        -((((-d) as u128) / 2) as i128)
    };
    c as isize
}

/// Draws one whole frame: the background colour, the map's layers in
/// order, the UI layers centred in the view, then every actor's sprites.
pub fn render_frame(render_size: &RenderSize, render_buf: &mut Vec<u16>, game: &GameState)
    requires
        old(render_buf)@.len() == render_size.area(),
        game.renderable(*render_size),
    ensures
        final(render_buf)@ == frame_image(*game, *render_size, old(render_buf)@.len()),
{
    let ghost len = render_buf@.len();
    let t = game.frame;

    // Fill the frame with the map's background colour
    let background_color = game.map.background_color;
    let n = render_buf.len();
    let mut i: usize = 0;
    while i < n
        invariant
            n == render_buf@.len(),
            i <= n,
            forall|k: int| 0 <= k < i ==> #[trigger] render_buf@[k] == background_color,
        decreases n - i,
    {
        render_buf.set(i, background_color);
        i += 1;
    }
    assert(render_buf@ =~= cleared(len, background_color));
    let ghost base = render_buf@;

    // Map layers, in order
    let layers = &game.map.layers;
    let mut i: usize = 0;
    while i < layers.len()
        invariant
            game.renderable(*render_size),
            t == game.frame,
            layers == &game.map.layers,
            i <= layers@.len(),
            render_buf@.len() == render_size.area(),
            render_buf@ == map_layers_image(base, *render_size, layers@.take(i as int), t as int, game.scroll_x as int, game.scroll_y as int),
        decreases layers@.len() - i,
    {
        assert(layers@.take(i + 1).drop_last() =~= layers@.take(i as int));
        assert(game.map.layers@[i as int].wf());
        render_layer(render_size, render_buf, t, game.scroll_x, game.scroll_y, &layers[i]);
        i += 1;
    }
    assert(layers@.take(layers@.len() as int) =~= layers@);
    let ghost with_map = render_buf@;

    // UI layers, each centred in the view
    let ui_layers = &game.ui_layers;
    let mut i: usize = 0;
    while i < ui_layers.len()
        invariant
            game.renderable(*render_size),
            t == game.frame,
            ui_layers == &game.ui_layers,
            i <= ui_layers@.len(),
            render_buf@.len() == render_size.area(),
            render_buf@ == ui_layers_image(with_map, *render_size, ui_layers@.take(i as int), t as int),
        decreases ui_layers@.len() - i,
    {
        assert(ui_layers@.take(i + 1).drop_last() =~= ui_layers@.take(i as int));
        let map_layer = &ui_layers[i];
        assert(game.ui_layers@[i as int].wf());
        let layer_width = map_layer.tile_width * map_layer.width;
        let layer_height = map_layer.tile_height * map_layer.height;
        let scroll_x = centered(render_size.width, layer_width);
        let scroll_y = centered(render_size.height, layer_height);
        render_layer(render_size, render_buf, t, scroll_x, scroll_y, map_layer);
        i += 1;
    }
    assert(ui_layers@.take(ui_layers@.len() as int) =~= ui_layers@);
    let ghost with_ui = render_buf@;

    // Every actor's sprites, in order
    let actors = &game.actors;
    let mut i: usize = 0;
    while i < actors.len()
        invariant
            game.renderable(*render_size),
            t == game.frame,
            actors == &game.actors,
            i <= actors@.len(),
            render_buf@.len() == render_size.area(),
            render_buf@ == actors_image(with_ui, *render_size, *game, actors@.take(i as int)),
        decreases actors@.len() - i,
    {
        assert(actors@.take(i + 1).drop_last() =~= actors@.take(i as int));
        let actor = &actors[i];
        let ghost before_actor = render_buf@;
        let mut j: usize = 0;
        while j < actor.sprites.len()
            invariant
                game.renderable(*render_size),
                t == game.frame,
            t == game.frame,
                actors == &game.actors,
                i < actors@.len(),
                actor == &actors@[i as int],
                j <= actor.sprites@.len(),
                render_buf@.len() == render_size.area(),
                render_buf@ == actor_sprites_image(before_actor, *render_size, *game, *actor, actor.sprites@.take(j as int)),
            decreases actor.sprites@.len() - j,
        {
            assert(actor.sprites@.take(j + 1).drop_last() =~= actor.sprites@.take(j as int));
            let sprite = &actor.sprites[j];
            assert(game.sprite_drawable(game.actors@[i as int], game.actors@[i as int].sprites@[j as int]));
            let animation = &game.sprites[sprite.sprite].animations[sprite.animation];
            render_sprite(
                render_size,
                render_buf,
                actor.x + sprite.x_offset - game.scroll_x,
                actor.y + sprite.y_offset - game.scroll_y,
                animation,
                sprite.animation_frame,
            );
            j += 1;
        }
        assert(actor.sprites@.take(actor.sprites@.len() as int) =~= actor.sprites@);
        i += 1;
    }
    assert(actors@.take(actors@.len() as int) =~= actors@);
}

} // verus!
