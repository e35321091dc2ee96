//! The per-frame driver: runs the four systems in their dependency order —
//! keyboard and ai first, then physics and the animator — once per tick.

use vstd::prelude::*;

use crate::ai::AI;
use crate::animator::{Animator, spec_animator_step};
use crate::keyboard::{Keyboard, spec_keyboard_step};
use crate::physics::{Physics, spec_physics_step};
use crate::player::MovementCommand;
use crate::world::{Entity, World};

verus! {

/// What one full tick does to one entity: the keyboard writes its velocity,
/// the ai passes, physics integrates its position, and the animator advances
/// its walking frame. Physics and the animator touch disjoint components, so
/// this order is the one observable outcome of the stage.
pub open spec fn spec_frame_step(command: Option<MovementCommand>, e: Entity) -> Entity {
    spec_animator_step(spec_physics_step(spec_keyboard_step(command, e)))
}

/// The fixed pipeline of systems, in dependency order.
pub struct Dispatcher {
    pub keyboard: Keyboard,
    pub ai: AI,
    pub physics: Physics,
    pub animator: Animator,
}

impl Dispatcher {
    /// Wires up the four systems.
    pub fn new() -> Dispatcher {
        Dispatcher { keyboard: Keyboard, ai: AI, physics: Physics, animator: Animator }
    }

    /// Runs one tick of the pipeline over the world: every entity ends up
    /// exactly as `spec_frame_step` maps it, and the movement command is
    /// left for the next input poll to overwrite.
    pub fn dispatch(&mut self, world: &mut World)
        requires
            old(world).wf(),
        ensures
            final(world).movement_command == old(world).movement_command,
            final(world).entities@.len() == old(world).entities@.len(),
            forall|i: int|
                0 <= i < old(world).entities@.len() ==> #[trigger] final(world).entities@[i]
                    == spec_frame_step(old(world).movement_command, old(world).entities@[i]),
            final(world).wf(),
    {
        let ghost w0 = *world;
        self.keyboard.run(world);
        let ghost w1 = *world;
        self.ai.run(world);
        let ghost w2 = *world;
        self.physics.run(world);
        let ghost w3 = *world;
        self.animator.run(world);
        proof {
            assert forall|i: int|
                0 <= i < w0.entities@.len() implies #[trigger] world.entities@[i]
                == spec_frame_step(w0.movement_command, w0.entities@[i]) by {
                assert(w1.entities@[i] == spec_keyboard_step(w0.movement_command, w0.entities@[i]));
                assert(w2.entities@[i] == w1.entities@[i]);
                assert(w3.entities@[i] == spec_physics_step(w2.entities@[i]));
                assert(world.entities@[i] == spec_animator_step(w3.entities@[i]));
            }
        }
    }
}

} // verus!
