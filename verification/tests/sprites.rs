use shootie::components::{
    Direction, Position, Sprite, character_animation_frames, direction_sprite_row,
};
use shootie::rect::{Point, Rect};
use shootie::renderer::{DrawOp, render};
use shootie::world::{Entity, World};

#[test]
fn direction_sprite_row_picks_the_spritesheet_row() {
    assert_eq!(direction_sprite_row(Direction::Up), 3);
    assert_eq!(direction_sprite_row(Direction::Down), 0);
    assert_eq!(direction_sprite_row(Direction::Left), 1);
    assert_eq!(direction_sprite_row(Direction::Right), 2);
    assert_eq!(direction_sprite_row(Direction::Nope), 0);
}

#[test]
fn character_animation_frames_walk_right_across_their_row() {
    let top_left = Rect::new(0, 0, 26, 36);
    let frames = character_animation_frames(7, top_left, Direction::Right);
    assert_eq!(frames.len(), 3);
    for (i, frame) in frames.iter().enumerate() {
        assert_eq!(frame.spritesheet, 7);
        assert_eq!(frame.region, Rect::new(26 * i as i32, 72, 26, 36));
    }
}

#[test]
fn character_animation_frames_use_the_direction_row() {
    let top_left = Rect::new(0, 0, 26, 36);
    assert_eq!(character_animation_frames(0, top_left, Direction::Up)[0].region.y(), 108);
    assert_eq!(character_animation_frames(0, top_left, Direction::Down)[0].region.y(), 0);
    assert_eq!(character_animation_frames(0, top_left, Direction::Left)[0].region.y(), 36);
    assert_eq!(character_animation_frames(0, top_left, Direction::Right)[0].region.y(), 72);
}

#[test]
fn character_animation_frames_start_from_the_top_left_frame() {
    let top_left = Rect::new(13, 20, 10, 12);
    let frames = character_animation_frames(0, top_left, Direction::Left);
    assert_eq!(frames[0].region, Rect::new(13, 32, 10, 12));
    assert_eq!(frames[1].region, Rect::new(23, 32, 10, 12));
    assert_eq!(frames[2].region, Rect::new(33, 32, 10, 12));
}

fn drawable_entity(x: i32, y: i32, spritesheet: usize) -> Entity {
    let mut e = Entity::new();
    e.position = Some(Position(Point::new(x, y)));
    e.sprite = Some(Sprite { spritesheet, region: Rect::new(0, 0, 26, 36) });
    e
}

#[test]
fn render_places_a_sprite_relative_to_the_screen_center() {
    let mut world = World::new();
    world.create_entity(drawable_entity(0, 0, 0));
    let ops = render(800, 800, &world);
    assert_eq!(ops.len(), 1);
    assert_eq!(
        ops[0],
        DrawOp { spritesheet: 0, src: Rect::new(0, 0, 26, 36), dst: Rect::new(387, 382, 26, 36) },
    );
}

#[test]
fn render_skips_entities_missing_a_component() {
    let mut world = World::new();
    let mut no_sprite = Entity::new();
    no_sprite.position = Some(Position(Point::new(0, 0)));
    world.create_entity(no_sprite);
    let mut no_position = Entity::new();
    no_position.sprite = Some(Sprite { spritesheet: 0, region: Rect::new(0, 0, 26, 36) });
    world.create_entity(no_position);
    assert_eq!(render(800, 800, &world), vec![]);
}

#[test]
fn render_keeps_entity_order() {
    let mut world = World::new();
    world.create_entity(drawable_entity(0, 0, 0));
    world.create_entity(drawable_entity(10, -10, 1));
    let ops = render(640, 480, &world);
    assert_eq!(ops.len(), 2);
    assert_eq!(ops[0].spritesheet, 0);
    assert_eq!(ops[0].dst, Rect::new(307, 222, 26, 36));
    assert_eq!(ops[1].spritesheet, 1);
    assert_eq!(ops[1].dst, Rect::new(317, 212, 26, 36));
}
