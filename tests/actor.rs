use tile_render::actor::{ActorInfo, BoundingRect, SpriteWithOffset};
use tile_render::sprite::{Sprite, SpriteAnimation};

fn animation(name: &str) -> SpriteAnimation {
    SpriteAnimation {
        name: name.to_string(),
        width: 1,
        height: 1,
        depth: 16,
        frames: vec![vec![0, 0]],
        frame_ticks: 1,
        palette: None,
    }
}

#[test]
fn new_actor_is_at_rest() {
    let a = ActorInfo::new(3, -4);
    assert_eq!((a.x, a.y, a.subpixel_x, a.subpixel_y), (3, -4, 0, 0));
    assert_eq!((a.velocity_x, a.velocity_y), (0, 0));
    assert!(a.collision_bounds.is_none());
    assert!(a.sprites.is_empty());
}

#[test]
fn unobstructed_move_carries_subpixels() {
    let mut a = ActorInfo::new(10, 0);
    a.subpixel_x = 200;
    a.velocity_x = 100;
    let (rect, target) = a.sweep_x_request();
    assert_eq!(rect, BoundingRect { x: 10, y: 0, width: 1, height: 1 });
    assert_eq!(target, 11);
    a.apply_move(None, None);
    assert_eq!(a.x, 11);
    assert_eq!(a.subpixel_x, 44);
    assert_eq!(a.velocity_x, 100);
    assert_eq!((a.y, a.subpixel_y), (0, 0));
}

#[test]
fn negative_velocity_floors_position() {
    let mut a = ActorInfo::new(0, 0);
    a.subpixel_y = 10;
    a.velocity_y = -20;
    a.apply_move(None, None);
    // 10 - 20 = -10 in 1/256 pixels: pixel -1, remainder 246
    assert_eq!((a.y, a.subpixel_y), (-1, 246));
}

#[test]
fn blocked_x_stops_at_edge_and_zeroes_velocity() {
    let mut a = ActorInfo::new(10, 5);
    a.subpixel_x = 128;
    a.velocity_x = 600;
    a.velocity_y = 3;
    let (_, target) = a.sweep_x_request();
    assert_eq!(target, 12);
    a.apply_move(Some(11), None);
    assert_eq!(a.x, 11);
    assert_eq!(a.subpixel_x, 0);
    assert_eq!(a.velocity_x, 0);
    assert_eq!(a.velocity_y, 3);
    assert_eq!((a.y, a.subpixel_y), (5, 3));
}

#[test]
fn blocked_with_collision_offset() {
    let mut a = ActorInfo::new(10, 0);
    a.set_collision_bounds(BoundingRect { x: 2, y: 1, width: 4, height: 6 });
    a.velocity_x = 512;
    let (rect, target) = a.sweep_x_request();
    assert_eq!(rect, BoundingRect { x: 12, y: 1, width: 4, height: 6 });
    assert_eq!(target, 14);
    a.apply_move(Some(13), None);
    assert_eq!((a.x, a.subpixel_x, a.velocity_x), (11, 0, 0));
}

#[test]
fn corner_resolves_x_before_y() {
    // A wall cell at (12, 12): moving diagonally from (10, 10) to (12, 12)
    let blocked = |x: isize, y: isize| x == 12 && y == 12;
    let mut a = ActorInfo::new(10, 10);
    a.velocity_x = 512;
    a.velocity_y = 512;

    // x sweep with the rectangle at (10, 10): reaching x = 12 at y = 10 is
    // free, but suppose the map stops it at 11
    let (rect_x, target_x) = a.sweep_x_request();
    assert_eq!((rect_x.x, rect_x.y, target_x), (10, 10, 12));
    let revised_x = Some(11);

    // y is swept with the corrected rectangle at x = 11, where y = 12 is free
    let (rect_y, target_y) = a.sweep_y_request(revised_x);
    assert_eq!((rect_y.x, rect_y.y, target_y), (11, 10, 12));
    assert!(!blocked(rect_y.x, target_y));

    // the uncorrected rectangle would stand at x = 12, where y = 12 is a wall
    let (rect_uncorrected, _) = a.sweep_y_request(None);
    assert_eq!(rect_uncorrected.x, 12);
    assert!(blocked(rect_uncorrected.x, target_y));

    a.apply_move(revised_x, None);
    assert_eq!((a.x, a.y), (11, 12));
    assert_eq!((a.velocity_x, a.velocity_y), (0, 512));
}

#[test]
fn blocked_y_after_x() {
    let mut a = ActorInfo::new(0, 0);
    a.velocity_x = 256;
    a.velocity_y = 1024;
    a.apply_move(None, Some(2));
    assert_eq!((a.x, a.subpixel_x, a.y, a.subpixel_y), (1, 0, 2, 0));
    assert_eq!((a.velocity_x, a.velocity_y), (256, 0));
}

#[test]
fn add_sprite_adopts_default_animation() {
    let sprites = vec![Sprite { animations: vec![animation("idle"), animation("walk")], default_animation: 1 }];
    let mut a = ActorInfo::new(0, 0);
    a.add_sprite(&sprites, 0, 3, -2);
    assert_eq!(
        a.sprites,
        vec![SpriteWithOffset { sprite: 0, animation: 1, animation_frame: 0, x_offset: 3, y_offset: -2 }]
    );
}

#[test]
fn start_animation_switches_only_matching_sprites() {
    let sprites = vec![
        Sprite { animations: vec![animation("idle"), animation("walk")], default_animation: 0 },
        Sprite { animations: vec![animation("idle")], default_animation: 0 },
    ];
    let mut a = ActorInfo::new(0, 0);
    a.add_sprite(&sprites, 0, 0, 0);
    a.add_sprite(&sprites, 1, 0, 0);
    a.sprites[0].animation_frame = 5;
    a.sprites[1].animation_frame = 7;
    a.start_animation(&sprites, &"walk".to_string());
    assert_eq!((a.sprites[0].animation, a.sprites[0].animation_frame), (1, 0));
    assert_eq!((a.sprites[1].animation, a.sprites[1].animation_frame), (0, 7));
}

#[test]
fn start_running_animation_keeps_tick() {
    let sprites = vec![Sprite { animations: vec![animation("idle"), animation("walk")], default_animation: 1 }];
    let mut a = ActorInfo::new(0, 0);
    a.add_sprite(&sprites, 0, 0, 0);
    a.sprites[0].animation_frame = 9;
    a.start_animation(&sprites, &"walk".to_string());
    assert_eq!((a.sprites[0].animation, a.sprites[0].animation_frame), (1, 9));
}

#[test]
fn animation_lookup_by_name() {
    let s = Sprite { animations: vec![animation("a"), animation("b"), animation("b")], default_animation: 0 };
    assert_eq!(s.get_animation_by_name(&"b".to_string()), Some(1));
    assert_eq!(s.get_animation_by_name(&"c".to_string()), None);
    assert_eq!(s.get_default_animation(), 0);
}
