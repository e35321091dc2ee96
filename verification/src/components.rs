//! The typed per-entity attributes of the game world.

use vstd::prelude::*;

use crate::rect::{Point, Rect, spec_rect_new};

verus! {

/// Marker component: the entity responds to player input.
#[derive(Debug, Default, Clone, Copy, PartialEq, Eq, Structural)]
pub struct KeyboardControlled;

/// Marker component: the entity is driven by the ai system.
#[derive(Debug, Default, Clone, Copy, PartialEq, Eq, Structural)]
pub struct Enemy;

/// The direction an entity is facing, or `Nope` when it stands still.
#[derive(Debug, Clone, Copy, PartialEq, Eq, Structural)]
pub enum Direction {
    Up,
    Down,
    Left,
    Right,
    Nope,
}

/// Where an entity stands; mutated only by the physics step.
#[derive(Debug, Clone, Copy, PartialEq, Eq, Structural)]
pub struct Position(pub Point);

/// How fast and which way an entity moves; written by the keyboard and ai
/// systems, read by physics and the animator.
#[derive(Debug, Clone, Copy, PartialEq, Eq, Structural)]
pub struct Velocity {
    pub speed: i32,
    pub direction: Direction,
}

impl Velocity {
    /// Negating the speed must not wrap, so the one unrepresentable
    /// magnitude is ruled out.
    pub open spec fn wf(self) -> bool {
        self.speed != i32::MIN
    }
}

/// Which texture to draw and which sub-rectangle of it; written by the
/// animator, read by the renderer.
#[derive(Debug, Clone, Copy, PartialEq, Eq, Structural)]
pub struct Sprite {
    pub spritesheet: usize,
    pub region: Rect,
}

/// One frame list per facing direction, plus the index of the frame the
/// entity currently shows; advanced each tick while the entity moves.
#[derive(Debug, Clone, PartialEq)]
pub struct MovementAnimation {
    pub current_frame: usize,
    pub up_frames: Vec<Sprite>,
    pub down_frames: Vec<Sprite>,
    pub left_frames: Vec<Sprite>,
    pub right_frames: Vec<Sprite>,
}

impl MovementAnimation {
    /// Every frame list has at least one frame, and the current index can
    /// still be advanced without wrapping.
    pub open spec fn wf(self) -> bool {
        &&& self.up_frames@.len() > 0
        &&& self.down_frames@.len() > 0
        &&& self.left_frames@.len() > 0
        &&& self.right_frames@.len() > 0
        &&& self.current_frame < usize::MAX
    }

    /// Runtime check of `wf`, for callers outside verified code.
    pub fn is_well_formed(&self) -> (b: bool)
        ensures
            b == self.wf(),
    {
        self.up_frames.len() > 0 && self.down_frames.len() > 0 && self.left_frames.len() > 0
            && self.right_frames.len() > 0 && self.current_frame < usize::MAX
    }
}

/// Which row of a spritesheet holds the frames for a direction.
pub open spec fn spec_direction_sprite_row(direction: Direction) -> int {
    match direction {
        Direction::Up => 3,
        Direction::Down => 0,
        Direction::Left => 1,
        Direction::Right => 2,
        Direction::Nope => 0,
    }
}

/// Maps a facing direction onto the spritesheet row holding its frames.
pub fn direction_sprite_row(direction: Direction) -> (row: i32)
    ensures
        row == spec_direction_sprite_row(direction),
{
    match direction {
        Direction::Up => 3,
        Direction::Down => 0,
        Direction::Left => 1,
        Direction::Right => 2,
        Direction::Nope => 0,
    }
}

/// Frame `i` of the walking animation for `direction`: the sub-rectangle of
/// the spritesheet `i` frame-widths to the right of `top_left_frame` on the
/// row that `spec_direction_sprite_row` assigns to the direction.
pub open spec fn spec_animation_frame(
    spritesheet: usize,
    top_left_frame: Rect,
    direction: Direction,
    i: int,
) -> Sprite {
    Sprite {
        spritesheet,
        region: spec_rect_new(
            top_left_frame.x + top_left_frame.width * i,
            top_left_frame.y + top_left_frame.height * spec_direction_sprite_row(direction),
            top_left_frame.width as int,
            top_left_frame.height as int,
        ),
    }
}

/// Builds the three walking frames for one facing direction, laid out left to
/// right on the spritesheet row belonging to that direction.
pub fn character_animation_frames(
    spritesheet: usize,
    top_left_frame: Rect,
    direction: Direction,
) -> (frames: Vec<Sprite>)
    requires
        2 * top_left_frame.width <= i32::MAX,
        top_left_frame.x + 2 * top_left_frame.width <= i32::MAX,
        3 * top_left_frame.height <= i32::MAX,
        top_left_frame.y + 3 * top_left_frame.height <= i32::MAX,
    ensures
        frames@.len() == 3,
        forall|i: int|
            0 <= i < 3 ==> frames@[i] == spec_animation_frame(
                spritesheet,
                top_left_frame,
                direction,
                i,
            ),
{
    let (frame_width, frame_height) = top_left_frame.size();
    let mut frames: Vec<Sprite> = Vec::new();
    let row = direction_sprite_row(direction);
    let mut i: i32 = 0;
    while i < 3
        invariant
            0 <= i <= 3,
            frames@.len() == i,
            forall|j: int|
                0 <= j < i ==> frames@[j] == spec_animation_frame(
                    spritesheet,
                    top_left_frame,
                    direction,
                    j,
                ),
            frame_width == top_left_frame.width,
            frame_height == top_left_frame.height,
            row == spec_direction_sprite_row(direction),
            2 * top_left_frame.width <= i32::MAX,
            top_left_frame.x + 2 * top_left_frame.width <= i32::MAX,
            3 * top_left_frame.height <= i32::MAX,
            top_left_frame.y + 3 * top_left_frame.height <= i32::MAX,
        decreases 3 - i,
    {
        proof {
            assert(0 <= frame_width as int * i as int <= 2 * frame_width as int) by (nonlinear_arith)
                requires
                    0 <= i < 3,
            ;
            assert(0 <= frame_height as int * row <= 3 * frame_height as int) by (nonlinear_arith)
                requires
                    0 <= row <= 3,
            ;
        }
        frames.push(
            Sprite {
                spritesheet,
                region: Rect::new(
                    top_left_frame.x() + frame_width as i32 * i,
                    top_left_frame.y() + frame_height as i32 * row,
                    frame_width,
                    frame_height,
                ),
            },
        );
        i = i + 1;
    }
    frames
}

} // verus!
