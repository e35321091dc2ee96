//! The animator system: while an entity moves, its walking animation
//! advances one frame per tick and its sprite shows the frame taken from
//! the list belonging to the direction it faces.

use vstd::prelude::*;

use crate::components::{Direction, MovementAnimation, Sprite};
use crate::world::{Entity, World};

verus! {

/// The frame list an animation uses for a facing direction. `Nope` falls
/// back to the down-facing list, the same row `spec_direction_sprite_row`
/// assigns to it; a moving entity never faces `Nope`, so the fallback is
/// only ever read for a standing one.
pub open spec fn spec_frames_for(a: MovementAnimation, direction: Direction) -> Seq<Sprite> {
    match direction {
        Direction::Up => a.up_frames@,
        Direction::Down => a.down_frames@,
        Direction::Left => a.left_frames@,
        Direction::Right => a.right_frames@,
        Direction::Nope => a.down_frames@,
    }
}

/// What the animator does to one entity: an entity with an animation, a
/// sprite and a velocity that is actually moving (nonzero speed along a
/// real direction) steps its current frame forward, wrapping around the
/// frame list of its direction, and shows that frame; anything else is left
/// alone.
pub open spec fn spec_animator_step(e: Entity) -> Entity {
    match (e.animation, e.sprite, e.velocity) {
        (Some(a), Some(_), Some(v)) => if v.speed != 0 && !(v.direction is Nope) {
            let frames = spec_frames_for(a, v.direction);
            let frame = ((a.current_frame + 1) % frames.len() as int) as usize;
            Entity {
                animation: Some(MovementAnimation { current_frame: frame, ..a }),
                sprite: Some(frames[frame as int]),
                ..e
            }
        } else {
            e
        },
        _ => e,
    }
}

/// The animator step never produces an ill-formed entity.
pub proof fn lemma_animator_step_preserves_wf(e: Entity)
    requires
        e.wf(),
    ensures
        spec_animator_step(e).wf(),
{
    match e.animation {
        Some(a) => {
            vstd::std_specs::vec::axiom_spec_len(&a.up_frames);
            vstd::std_specs::vec::axiom_spec_len(&a.down_frames);
            vstd::std_specs::vec::axiom_spec_len(&a.left_frames);
            vstd::std_specs::vec::axiom_spec_len(&a.right_frames);
        },
        None => {},
    }
}

/// Direction and frame list stay in sync: after the animator steps a moving
/// entity, the sprite it shows is exactly the current frame of the frame
/// list belonging to the direction it faces, and that frame index is in
/// bounds.
pub proof fn lemma_animation_stays_in_sync(e: Entity)
    requires
        e.wf(),
        e.animation is Some,
        e.sprite is Some,
        e.velocity matches Some(v) && v.speed != 0 && !(v.direction is Nope),
    ensures
        ({
            let stepped = spec_animator_step(e);
            &&& stepped.velocity == e.velocity
            &&& stepped.animation matches Some(a)
            &&& a.current_frame < spec_frames_for(a, e.velocity.unwrap().direction).len()
            &&& stepped.sprite == Some(
                spec_frames_for(a, e.velocity.unwrap().direction)[a.current_frame as int],
            )
        }),
{
    lemma_animator_step_preserves_wf(e);
}

/// The animator system.
pub struct Animator;

impl Animator {
    /// Advances the walking animation of every moving entity by one frame,
    /// as `spec_animator_step` describes.
    pub fn run(&mut self, world: &mut World)
        requires
            old(world).wf(),
        ensures
            final(world).movement_command == old(world).movement_command,
            final(world).entities@.len() == old(world).entities@.len(),
            forall|i: int|
                0 <= i < old(world).entities@.len() ==> #[trigger] final(world).entities@[i]
                    == spec_animator_step(old(world).entities@[i]),
            final(world).wf(),
    {
        let ghost orig = world.entities@;
        let ghost command = world.movement_command;
        let n = world.entities.len();
        let mut i: usize = 0;
        while i < n
            invariant
                i <= n,
                n == orig.len(),
                world.entities@.len() == orig.len(),
                world.movement_command == command,
                forall|j: int| 0 <= j < orig.len() ==> (#[trigger] orig[j]).wf(),
                forall|j: int|
                    0 <= j < i ==> #[trigger] world.entities@[j] == spec_animator_step(orig[j]),
                forall|j: int| i <= j < orig.len() ==> #[trigger] world.entities@[j] == orig[j],
            decreases n - i,
        {
            let e = &mut world.entities[i];
            if e.animation.is_some() && e.sprite.is_some() && e.velocity.is_some() {
                let vel = e.velocity.unwrap();
                if vel.speed != 0 && !matches!(vel.direction, Direction::Nope) {
                    let mut animation = e.animation.take().unwrap();
                    let len = match vel.direction {
                        Direction::Up => animation.up_frames.len(),
                        Direction::Down => animation.down_frames.len(),
                        Direction::Left => animation.left_frames.len(),
                        Direction::Right => animation.right_frames.len(),
                        Direction::Nope => animation.down_frames.len(),
                    };
                    let frame = (animation.current_frame + 1) % len;
                    animation.current_frame = frame;
                    let shown = match vel.direction {
                        Direction::Up => animation.up_frames[frame],
                        Direction::Down => animation.down_frames[frame],
                        Direction::Left => animation.left_frames[frame],
                        Direction::Right => animation.right_frames[frame],
                        Direction::Nope => animation.down_frames[frame],
                    };
                    e.sprite = Some(shown);
                    e.animation = Some(animation);
                }
            }
            i = i + 1;
        }
        proof {
            assert forall|i2: int|
                0 <= i2 < world.entities@.len() implies (#[trigger] world.entities@[i2]).wf() by {
                lemma_animator_step_preserves_wf(orig[i2]);
            }
        }
    }
}

} // verus!
