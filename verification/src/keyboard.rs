//! The keyboard system: maps the shared movement command onto the velocity
//! of every keyboard-controlled entity.

use vstd::prelude::*;

use crate::components::{Direction, Velocity};
use crate::player::{MovementCommand, PLAYER_SPEED};
use crate::world::{Entity, World};

verus! {

/// The velocity a movement command asks for: full player speed along the
/// commanded direction, or a standstill on `Stop`.
pub open spec fn spec_velocity_for(command: MovementCommand) -> Velocity {
    match command {
        MovementCommand::Move(direction) => Velocity { speed: PLAYER_SPEED, direction },
        MovementCommand::Stop => Velocity { speed: 0, direction: Direction::Nope },
    }
}

/// What the keyboard system does to one entity: with a pending command, a
/// keyboard-controlled entity with a velocity gets the commanded velocity;
/// every other entity, and every entity when no command is pending, is left
/// alone.
pub open spec fn spec_keyboard_step(command: Option<MovementCommand>, e: Entity) -> Entity {
    match command {
        Some(c) => if e.keyboard_controlled is Some && e.velocity is Some {
            Entity { velocity: Some(spec_velocity_for(c)), ..e }
        } else {
            e
        },
        None => e,
    }
}

/// The keyboard step never produces an ill-formed entity.
pub proof fn lemma_keyboard_step_preserves_wf(command: Option<MovementCommand>, e: Entity)
    requires
        e.wf(),
    ensures
        spec_keyboard_step(command, e).wf(),
{
}

/// The keyboard system.
pub struct Keyboard;

impl Keyboard {
    /// Applies the pending movement command, if any, to every
    /// keyboard-controlled entity, as `spec_keyboard_step` describes.
    pub fn run(&mut self, world: &mut World)
        ensures
            final(world).movement_command == old(world).movement_command,
            final(world).entities@.len() == old(world).entities@.len(),
            forall|i: int|
                0 <= i < old(world).entities@.len() ==> #[trigger] final(world).entities@[i]
                    == spec_keyboard_step(old(world).movement_command, old(world).entities@[i]),
            old(world).wf() ==> final(world).wf(),
    {
        let movement_command = match &world.movement_command {
            Some(mc) => *mc,
            None => {
                return ;
            },
        };
        let ghost orig = world.entities@;
        let ghost command = world.movement_command;
        let n = world.entities.len();
        let mut i: usize = 0;
        while i < n
            invariant
                i <= n,
                n == orig.len(),
                world.entities@.len() == orig.len(),
                world.movement_command == command,
                command == Some(movement_command),
                forall|j: int|
                    0 <= j < i ==> #[trigger] world.entities@[j] == spec_keyboard_step(
                        command,
                        orig[j],
                    ),
                forall|j: int| i <= j < orig.len() ==> #[trigger] world.entities@[j] == orig[j],
            decreases n - i,
        {
            let e = &mut world.entities[i];
            if e.keyboard_controlled.is_some() && e.velocity.is_some() {
                let velocity = match movement_command {
                    MovementCommand::Move(direction) => Velocity {
                        speed: PLAYER_SPEED,
                        direction,
                    },
                    MovementCommand::Stop => Velocity { speed: 0, direction: Direction::Nope },
                };
                e.velocity = Some(velocity);
            }
            i = i + 1;
        }
        proof {
            if old(world).wf() {
                assert forall|i2: int|
                    0 <= i2 < world.entities@.len() implies (#[trigger] world.entities@[i2]).wf() by {
                    lemma_keyboard_step_preserves_wf(command, orig[i2]);
                }
            }
        }
    }
}

} // verus!
