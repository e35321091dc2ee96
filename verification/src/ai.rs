//! The ai system. It walks every enemy that has a velocity, but so far
//! decides nothing: the world it hands back is exactly the one it was given.

use vstd::prelude::*;

use crate::world::World;

verus! {

/// The ai system; a stub with no observable effect yet.
pub struct AI;

impl AI {
    /// Visits every enemy with a velocity and leaves the world unchanged.
    pub fn run(&mut self, world: &mut World)
        ensures
            *final(world) == *old(world),
    {
        let n = world.entities.len();
        let mut i: usize = 0;
        while i < n
            invariant
                i <= n,
                n == world.entities@.len(),
            decreases n - i,
        {
            let e = &world.entities[i];
            if e.enemy.is_some() && e.velocity.is_some() {
                // Enemy behaviour goes here once there is any.
            }
            i = i + 1;
        }
    }
}

} // verus!
