//! The game world: a flat store of entities, each holding an optional value
//! for every component, plus the shared movement-command resource written by
//! input polling and read by the keyboard system.

use vstd::prelude::*;

use crate::components::{
    Enemy, KeyboardControlled, MovementAnimation, Position, Sprite, Velocity,
};
use crate::player::MovementCommand;

verus! {

/// One entity: a bundle of optional components. A system touches an entity
/// only when every component it joins on is present.
#[derive(Debug, PartialEq)]
pub struct Entity {
    pub keyboard_controlled: Option<KeyboardControlled>,
    pub enemy: Option<Enemy>,
    pub position: Option<Position>,
    pub velocity: Option<Velocity>,
    pub sprite: Option<Sprite>,
    pub animation: Option<MovementAnimation>,
}

impl Entity {
    /// The components this entity carries are well formed.
    pub open spec fn wf(self) -> bool {
        &&& match self.velocity {
            Some(v) => v.wf(),
            None => true,
        }
        &&& match self.animation {
            Some(a) => a.wf(),
            None => true,
        }
    }

    /// Runtime check of `wf`, for callers outside verified code.
    pub fn is_well_formed(&self) -> (b: bool)
        ensures
            b == self.wf(),
    {
        let velocity_ok = match &self.velocity {
            Some(v) => v.speed != i32::MIN,
            None => true,
        };
        let animation_ok = match &self.animation {
            Some(a) => a.is_well_formed(),
            None => true,
        };
        velocity_ok && animation_ok
    }

    /// An entity with no components; callers fill in the ones they need.
    pub fn new() -> (e: Entity)
        ensures
            e.keyboard_controlled is None,
            e.enemy is None,
            e.position is None,
            e.velocity is None,
            e.sprite is None,
            e.animation is None,
    {
        Entity {
            keyboard_controlled: None,
            enemy: None,
            position: None,
            velocity: None,
            sprite: None,
            animation: None,
        }
    }
}

/// The shared world the per-frame systems run against.
#[derive(Debug, PartialEq)]
pub struct World {
    pub entities: Vec<Entity>,
    pub movement_command: Option<MovementCommand>,
}

impl World {
    /// Every entity in the world is well formed.
    pub open spec fn wf(self) -> bool {
        forall|i: int|
            0 <= i < self.entities@.len() ==> (#[trigger] self.entities@[i]).wf()
    }

    /// Runtime check of `wf`, for callers outside verified code.
    pub fn is_well_formed(&self) -> (b: bool)
        ensures
            b == self.wf(),
    {
        let n = self.entities.len();
        let mut i: usize = 0;
        while i < n
            invariant
                i <= n,
                n == self.entities@.len(),
                forall|j: int| 0 <= j < i ==> (#[trigger] self.entities@[j]).wf(),
            decreases n - i,
        {
            if !self.entities[i].is_well_formed() {
                return false;
            }
            i = i + 1;
        }
        true
    }

    /// An empty world with no pending movement command.
    pub fn new() -> (w: World)
        ensures
            w.entities@.len() == 0,
            w.movement_command is None,
            w.wf(),
    {
        World { entities: Vec::new(), movement_command: None }
    }

    /// Adds an entity to the world.
    pub fn create_entity(&mut self, entity: Entity)
        ensures
            final(self).entities@ == old(self).entities@.push(entity),
            final(self).movement_command == old(self).movement_command,
    {
        self.entities.push(entity);
    }
}

} // verus!
