//! The physics system: each tick it shifts every entity that has both a
//! position and a velocity one speed-step along its facing direction.

use vstd::prelude::*;

use crate::components::{Direction, Position, Velocity};
use crate::rect::{MAX_COORD, MIN_COORD, Point, spec_point_offset};
use crate::world::{Entity, World};

verus! {

/// Where a point ends up after one tick of motion: shifted by the velocity's
/// speed along its direction (left and down decrease a coordinate, right and
/// up increase it), or unmoved when the direction is `Nope`.
pub open spec fn spec_moved_point(p: Point, v: Velocity) -> Point {
    match v.direction {
        Direction::Left => spec_point_offset(p, -(v.speed as int), 0),
        Direction::Right => spec_point_offset(p, v.speed as int, 0),
        Direction::Down => spec_point_offset(p, 0, -(v.speed as int)),
        Direction::Up => spec_point_offset(p, 0, v.speed as int),
        Direction::Nope => p,
    }
}

/// What the physics system does to one entity: an entity with both a
/// position and a velocity has its position integrated by one tick;
/// anything else is left alone.
pub open spec fn spec_physics_step(e: Entity) -> Entity {
    match (e.position, e.velocity) {
        (Some(p), Some(v)) => Entity { position: Some(Position(spec_moved_point(p.0, v))), ..e },
        _ => e,
    }
}

/// The physics step never produces an ill-formed entity.
pub proof fn lemma_physics_step_preserves_wf(e: Entity)
    requires
        e.wf(),
    ensures
        spec_physics_step(e).wf(),
{
}

/// The entity after `n` ticks of the physics step.
pub open spec fn spec_physics_step_n(e: Entity, n: nat) -> Entity
    decreases n,
{
    if n == 0 {
        e
    } else {
        spec_physics_step(spec_physics_step_n(e, (n - 1) as nat))
    }
}

/// Moving left for `n` frames decreases x by `n` times the speed: as long
/// as the path stays inside the coordinate band, `n` physics ticks shift a
/// left-moving entity exactly `n * speed` pixels along the x axis and
/// nothing else about it changes.
pub proof fn lemma_moving_left_n_frames(e: Entity, p: Position, v: Velocity, n: nat)
    requires
        e.position == Some(p),
        e.velocity == Some(v),
        v.direction is Left,
        v.speed >= 0,
        MIN_COORD <= p.0.x - n * v.speed,
        p.0.x <= MAX_COORD,
        MIN_COORD <= p.0.y <= MAX_COORD,
    ensures
        spec_physics_step_n(e, n) == (Entity {
            position: Some(Position(Point { x: (p.0.x - n * v.speed) as i32, y: p.0.y })),
            ..e
        }),
    decreases n,
{
    if n == 0 {
        assert(p.0.x - n * v.speed == p.0.x);
    } else {
        assert((n - 1) * v.speed + v.speed == n * v.speed) by (nonlinear_arith);
        assert(0 <= (n - 1) * v.speed <= n * v.speed) by (nonlinear_arith)
            requires
                n >= 1,
                v.speed >= 0,
        ;
        lemma_moving_left_n_frames(e, p, v, (n - 1) as nat);
    }
}

/// The physics system.
pub struct Physics;

impl Physics {
    /// Integrates every positioned, moving entity by one tick, as
    /// `spec_physics_step` describes.
    pub fn run(&mut self, world: &mut World)
        requires
            old(world).wf(),
        ensures
            final(world).movement_command == old(world).movement_command,
            final(world).entities@.len() == old(world).entities@.len(),
            forall|i: int|
                0 <= i < old(world).entities@.len() ==> #[trigger] final(world).entities@[i]
                    == spec_physics_step(old(world).entities@[i]),
            final(world).wf(),
    {
        let ghost orig = world.entities@;
        let ghost command = world.movement_command;
        let n = world.entities.len();
        let mut i: usize = 0;
        while i < n
            invariant
                i <= n,
                n == orig.len(),
                world.entities@.len() == orig.len(),
                world.movement_command == command,
                forall|j: int| 0 <= j < orig.len() ==> (#[trigger] orig[j]).wf(),
                forall|j: int|
                    0 <= j < i ==> #[trigger] world.entities@[j] == spec_physics_step(orig[j]),
                forall|j: int| i <= j < orig.len() ==> #[trigger] world.entities@[j] == orig[j],
            decreases n - i,
        {
            let e = &mut world.entities[i];
            if e.position.is_some() && e.velocity.is_some() {
                let vel = e.velocity.unwrap();
                let pos = e.position.unwrap();
                let moved = match vel.direction {
                    Direction::Left => pos.0.offset(-vel.speed, 0),
                    Direction::Right => pos.0.offset(vel.speed, 0),
                    Direction::Down => pos.0.offset(0, -vel.speed),
                    Direction::Up => pos.0.offset(0, vel.speed),
                    Direction::Nope => pos.0,
                };
                e.position = Some(Position(moved));
            }
            i = i + 1;
        }
        proof {
            assert forall|i2: int|
                0 <= i2 < world.entities@.len() implies (#[trigger] world.entities@[i2]).wf() by {
                lemma_physics_step_preserves_wf(orig[i2]);
            }
        }
    }
}

} // verus!
