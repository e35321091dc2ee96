use shootie::ai::AI;
use shootie::animator::Animator;
use shootie::components::{
    Direction, Enemy, KeyboardControlled, MovementAnimation, Position, Sprite, Velocity,
    character_animation_frames,
};
use shootie::dispatcher::Dispatcher;
use shootie::keyboard::Keyboard;
use shootie::physics::Physics;
use shootie::player::MovementCommand;
use shootie::rect::{Point, Rect};
use shootie::world::{Entity, World};

fn walking_animation(spritesheet: usize) -> MovementAnimation {
    let top_left = Rect::new(0, 0, 26, 36);
    MovementAnimation {
        current_frame: 0,
        up_frames: character_animation_frames(spritesheet, top_left, Direction::Up),
        down_frames: character_animation_frames(spritesheet, top_left, Direction::Down),
        left_frames: character_animation_frames(spritesheet, top_left, Direction::Left),
        right_frames: character_animation_frames(spritesheet, top_left, Direction::Right),
    }
}

fn player_entity() -> Entity {
    let animation = walking_animation(0);
    let mut e = Entity::new();
    e.keyboard_controlled = Some(KeyboardControlled);
    e.position = Some(Position(Point::new(0, 0)));
    e.velocity = Some(Velocity { speed: 0, direction: Direction::Nope });
    e.sprite = Some(animation.right_frames[0]);
    e.animation = Some(animation);
    e
}

fn velocity_of(world: &World, index: usize) -> Velocity {
    world.entities[index].velocity.unwrap()
}

fn position_of(world: &World, index: usize) -> Point {
    world.entities[index].position.unwrap().0
}

#[test]
fn keyboard_applies_a_move_command_to_controlled_entities() {
    let mut world = World::new();
    world.create_entity(player_entity());
    let mut uncontrolled = Entity::new();
    uncontrolled.velocity = Some(Velocity { speed: 0, direction: Direction::Nope });
    world.create_entity(uncontrolled);
    world.movement_command = Some(MovementCommand::Move(Direction::Left));

    Keyboard.run(&mut world);

    assert_eq!(velocity_of(&world, 0), Velocity { speed: 5, direction: Direction::Left });
    assert_eq!(velocity_of(&world, 1), Velocity { speed: 0, direction: Direction::Nope });
    assert_eq!(world.movement_command, Some(MovementCommand::Move(Direction::Left)));
}

#[test]
fn keyboard_stop_command_halts_controlled_entities() {
    let mut world = World::new();
    let mut moving = player_entity();
    moving.velocity = Some(Velocity { speed: 5, direction: Direction::Right });
    world.create_entity(moving);
    world.movement_command = Some(MovementCommand::Stop);

    Keyboard.run(&mut world);

    assert_eq!(velocity_of(&world, 0), Velocity { speed: 0, direction: Direction::Nope });
}

#[test]
fn keyboard_without_a_command_changes_nothing() {
    let mut world = World::new();
    let mut moving = player_entity();
    moving.velocity = Some(Velocity { speed: 5, direction: Direction::Up });
    world.create_entity(moving);
    world.movement_command = None;

    Keyboard.run(&mut world);

    assert_eq!(velocity_of(&world, 0), Velocity { speed: 5, direction: Direction::Up });
}

#[test]
fn ai_leaves_the_world_unchanged() {
    let mut world = World::new();
    let mut enemy = Entity::new();
    enemy.enemy = Some(Enemy);
    enemy.velocity = Some(Velocity { speed: 3, direction: Direction::Down });
    world.create_entity(enemy);
    let mut expected = World::new();
    let mut enemy_again = Entity::new();
    enemy_again.enemy = Some(Enemy);
    enemy_again.velocity = Some(Velocity { speed: 3, direction: Direction::Down });
    expected.create_entity(enemy_again);

    AI.run(&mut world);

    assert_eq!(world, expected);
}

#[test]
fn physics_moves_along_each_direction() {
    let cases = [
        (Direction::Left, Point { x: -5, y: 0 }),
        (Direction::Right, Point { x: 5, y: 0 }),
        (Direction::Up, Point { x: 0, y: 5 }),
        (Direction::Down, Point { x: 0, y: -5 }),
        (Direction::Nope, Point { x: 0, y: 0 }),
    ];
    for (direction, expected) in cases {
        let mut world = World::new();
        let mut e = Entity::new();
        e.position = Some(Position(Point::new(0, 0)));
        e.velocity = Some(Velocity { speed: 5, direction });
        world.create_entity(e);

        Physics.run(&mut world);

        assert_eq!(position_of(&world, 0), expected, "direction {:?}", direction);
    }
}

#[test]
fn physics_skips_entities_without_both_components() {
    let mut world = World::new();
    let mut no_velocity = Entity::new();
    no_velocity.position = Some(Position(Point::new(3, 4)));
    world.create_entity(no_velocity);

    Physics.run(&mut world);

    assert_eq!(position_of(&world, 0), Point { x: 3, y: 4 });
}

#[test]
fn moving_left_for_n_frames_decreases_x_by_n_times_speed() {
    let mut world = World::new();
    let mut e = Entity::new();
    e.position = Some(Position(Point::new(0, 0)));
    e.velocity = Some(Velocity { speed: 5, direction: Direction::Left });
    world.create_entity(e);

    for _ in 0..4 {
        Physics.run(&mut world);
    }

    assert_eq!(position_of(&world, 0), Point { x: -20, y: 0 });
}

#[test]
fn animator_advances_and_wraps_the_walking_frame() {
    let mut world = World::new();
    let mut e = player_entity();
    e.velocity = Some(Velocity { speed: 5, direction: Direction::Right });
    world.create_entity(e);
    let frames = walking_animation(0).right_frames;

    Animator.run(&mut world);
    assert_eq!(world.entities[0].animation.as_ref().unwrap().current_frame, 1);
    assert_eq!(world.entities[0].sprite.unwrap(), frames[1]);

    Animator.run(&mut world);
    assert_eq!(world.entities[0].animation.as_ref().unwrap().current_frame, 2);
    assert_eq!(world.entities[0].sprite.unwrap(), frames[2]);

    Animator.run(&mut world);
    assert_eq!(world.entities[0].animation.as_ref().unwrap().current_frame, 0);
    assert_eq!(world.entities[0].sprite.unwrap(), frames[0]);
}

#[test]
fn animator_leaves_standing_entities_alone() {
    let mut world = World::new();
    world.create_entity(player_entity());

    Animator.run(&mut world);

    assert_eq!(world.entities[0].animation.as_ref().unwrap().current_frame, 0);
    assert_eq!(world.entities[0].sprite.unwrap(), walking_animation(0).right_frames[0]);
}

#[test]
fn animator_uses_the_frame_list_of_the_direction_faced() {
    let mut world = World::new();
    let mut e = player_entity();
    e.velocity = Some(Velocity { speed: 5, direction: Direction::Up });
    world.create_entity(e);

    Animator.run(&mut world);

    assert_eq!(world.entities[0].sprite.unwrap(), walking_animation(0).up_frames[1]);
}

#[test]
fn dispatch_runs_one_full_tick_in_order() {
    let mut world = World::new();
    world.create_entity(player_entity());
    world.movement_command = Some(MovementCommand::Move(Direction::Right));
    let mut dispatcher = Dispatcher::new();

    dispatcher.dispatch(&mut world);

    assert_eq!(velocity_of(&world, 0), Velocity { speed: 5, direction: Direction::Right });
    assert_eq!(position_of(&world, 0), Point { x: 5, y: 0 });
    assert_eq!(world.entities[0].animation.as_ref().unwrap().current_frame, 1);
    assert_eq!(world.entities[0].sprite.unwrap(), walking_animation(0).right_frames[1]);
    assert_eq!(world.movement_command, Some(MovementCommand::Move(Direction::Right)));
}

#[test]
fn dispatch_stop_then_tick_keeps_the_entity_in_place() {
    let mut world = World::new();
    let mut e = player_entity();
    e.velocity = Some(Velocity { speed: 5, direction: Direction::Right });
    world.create_entity(e);
    world.movement_command = Some(MovementCommand::Stop);
    let mut dispatcher = Dispatcher::new();

    dispatcher.dispatch(&mut world);

    assert_eq!(velocity_of(&world, 0), Velocity { speed: 0, direction: Direction::Nope });
    assert_eq!(position_of(&world, 0), Point { x: 0, y: 0 });
    assert_eq!(world.entities[0].animation.as_ref().unwrap().current_frame, 0);
}

#[test]
fn world_starts_empty_and_well_formed() {
    let world = World::new();
    assert_eq!(world.entities.len(), 0);
    assert_eq!(world.movement_command, None);
    assert!(world.is_well_formed());
}

#[test]
fn is_well_formed_rejects_a_broken_entity() {
    let mut world = World::new();
    let mut e = Entity::new();
    e.velocity = Some(Velocity { speed: i32::MIN, direction: Direction::Left });
    world.create_entity(e);
    assert!(!world.is_well_formed());

    let mut world2 = World::new();
    let mut e2 = Entity::new();
    e2.animation = Some(MovementAnimation {
        current_frame: 0,
        up_frames: vec![],
        down_frames: vec![],
        left_frames: vec![],
        right_frames: vec![],
    });
    world2.create_entity(e2);
    assert!(!world2.is_well_formed());
}
