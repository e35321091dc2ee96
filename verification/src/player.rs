//! The stand-alone player character and the movement-command resource that
//! input polling hands to the keyboard system.

use vstd::prelude::*;

use crate::components::Direction;
use crate::rect::{Point, Rect, spec_point_offset};
use crate::renderer::spec_screen_rect;

verus! {

/// How many pixels a player-controlled entity moves per tick.
pub const PLAYER_SPEED: i32 = 5;

/// How many frames a walking animation cycles through.
pub const FRAMES_PER_DIRECTION: i32 = 3;

/// The latest input: start moving in a direction, or stop.
#[derive(Debug, Clone, Copy, PartialEq, Eq, Structural)]
pub enum MovementCommand {
    Stop,
    Move(Direction),
}

/// A self-contained player character: position, sprite region, motion state
/// and the index of the walking frame it currently shows.
#[derive(Debug, Clone, Copy, PartialEq, Eq, Structural)]
pub struct Player {
    pub position: Point,
    pub sprite: Rect,
    pub speed: i32,
    pub direction: Direction,
    pub current_frame: i32,
}

/// The player state after one tick: while facing a direction the player
/// moves one `PLAYER_SPEED` step along it and advances its walking frame;
/// facing `Nope` it stands still on its current frame.
pub open spec fn spec_player_updated(p: Player) -> Player {
    let moved = match p.direction {
        Direction::Left => (Player {
            speed: PLAYER_SPEED,
            position: spec_point_offset(p.position, -PLAYER_SPEED as int, 0),
            ..p
        }),
        Direction::Right => (Player {
            speed: PLAYER_SPEED,
            position: spec_point_offset(p.position, PLAYER_SPEED as int, 0),
            ..p
        }),
        Direction::Up => (Player {
            speed: PLAYER_SPEED,
            position: spec_point_offset(p.position, 0, -PLAYER_SPEED as int),
            ..p
        }),
        Direction::Down => (Player {
            speed: PLAYER_SPEED,
            position: spec_point_offset(p.position, 0, PLAYER_SPEED as int),
            ..p
        }),
        Direction::Nope => (Player { speed: 0, direction: Direction::Nope, ..p }),
    };
    if moved.speed != 0 {
        Player {
            current_frame: ((moved.current_frame + 1) % FRAMES_PER_DIRECTION as int) as i32,
            ..moved
        }
    } else {
        moved
    }
}

impl Player {
    /// The current walking frame is one of the three the spritesheet holds.
    pub open spec fn wf(self) -> bool {
        0 <= self.current_frame < FRAMES_PER_DIRECTION
    }

    /// Creates a player at `position` showing `sprite`, standing still
    /// unless a speed or direction is handed in.
    pub fn new(
        position: Point,
        sprite: Rect,
        speed: Option<i32>,
        direction: Option<Direction>,
    ) -> (p: Self)
        ensures
            p.position == position,
            p.sprite == sprite,
            p.speed == (match speed {
                Some(s) => s,
                None => 0,
            }),
            p.direction == (match direction {
                Some(d) => d,
                None => Direction::Nope,
            }),
            p.current_frame == 0,
            p.wf(),
    {
        Self {
            position,
            sprite,
            speed: speed.unwrap_or(0),
            direction: direction.unwrap_or(Direction::Nope),
            current_frame: 0,
        }
    }

    /// Where on a `width` by `height` output the player is drawn: a
    /// rectangle of its sprite's size centered on its position, taken
    /// relative to the middle of the output.
    pub fn spawn_position(&self, width: u32, height: u32) -> (r: Rect)
        ensures
            r == spec_screen_rect(
                self.position,
                width,
                height,
                self.sprite.width as int,
                self.sprite.height as int,
            ),
    {
        let point = self.position.offset((width / 2) as i32, (height / 2) as i32);
        Rect::from_center(point, self.sprite.width(), self.sprite.height())
    }

    /// Advances the player by one tick, as `spec_player_updated` describes.
    pub fn update_position(&mut self)
        requires
            old(self).wf(),
        ensures
            *final(self) == spec_player_updated(*old(self)),
            final(self).wf(),
    {
        match self.direction {
            Direction::Left => {
                self.speed = PLAYER_SPEED;
                self.position = self.position.offset(-self.speed, 0);
            },
            Direction::Right => {
                self.speed = PLAYER_SPEED;
                self.position = self.position.offset(self.speed, 0);
            },
            Direction::Up => {
                self.speed = PLAYER_SPEED;
                self.position = self.position.offset(0, -self.speed);
            },
            Direction::Down => {
                self.speed = PLAYER_SPEED;
                self.position = self.position.offset(0, self.speed);
            },
            Direction::Nope => {
                self.speed = 0;
                self.direction = Direction::Nope;
            },
        }
        if self.speed != 0 {
            self.current_frame = (self.current_frame + 1) % FRAMES_PER_DIRECTION;
        }
    }
}

} // verus!
