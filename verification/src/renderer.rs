//! Turns the world into draw operations: for every entity with a position
//! and a sprite, which sub-rectangle of which texture to blit, and where on
//! the output it lands. Performing the blits is up to the caller.

use vstd::prelude::*;

use crate::components::{Position, Sprite};
use crate::rect::{Point, Rect, spec_point_offset, spec_rect_from_center};
use crate::world::{Entity, World};

verus! {

/// One blit: copy `src` out of texture `spritesheet` onto `dst`.
#[derive(Debug, Clone, Copy, PartialEq, Eq, Structural)]
pub struct DrawOp {
    pub spritesheet: usize,
    pub src: Rect,
    pub dst: Rect,
}

/// Where a world point lands on a `width` by `height` output: a rectangle
/// of the given size centered on the point shifted by half the output, so
/// that the world origin sits in the middle of the screen.
pub open spec fn spec_screen_rect(p: Point, width: u32, height: u32, w: int, h: int) -> Rect {
    spec_rect_from_center(spec_point_offset(p, width as int / 2, height as int / 2), w, h)
}

/// The draw operation for one entity: its sprite's region, blitted to the
/// screen rectangle of that region's size at the entity's position.
pub open spec fn spec_draw_op(width: u32, height: u32, pos: Position, sprite: Sprite) -> DrawOp {
    DrawOp {
        spritesheet: sprite.spritesheet,
        src: sprite.region,
        dst: spec_screen_rect(
            pos.0,
            width,
            height,
            sprite.region.width as int,
            sprite.region.height as int,
        ),
    }
}

/// The draw operations for a sequence of entities, in entity order; an
/// entity missing a position or a sprite contributes none.
pub open spec fn spec_render(width: u32, height: u32, entities: Seq<Entity>) -> Seq<DrawOp>
    decreases entities.len(),
{
    if entities.len() == 0 {
        Seq::empty()
    } else {
        let rest = spec_render(width, height, entities.drop_last());
        let e = entities.last();
        match (e.position, e.sprite) {
            (Some(p), Some(s)) => rest.push(spec_draw_op(width, height, p, s)),
            _ => rest,
        }
    }
}

/// Collects the draw operations for one frame on a `width` by `height`
/// output: one per entity holding both a position and a sprite, in entity
/// order, each placed by `spec_draw_op`.
pub fn render(width: u32, height: u32, world: &World) -> (ops: Vec<DrawOp>)
    ensures
        ops@ == spec_render(width, height, world.entities@),
{
    let mut ops: Vec<DrawOp> = Vec::new();
    let n = world.entities.len();
    let mut i: usize = 0;
    while i < n
        invariant
            i <= n,
            n == world.entities@.len(),
            ops@ == spec_render(width, height, world.entities@.take(i as int)),
        decreases n - i,
    {
        let e = &world.entities[i];
        if e.position.is_some() && e.sprite.is_some() {
            let pos = e.position.unwrap();
            let sprite = e.sprite.unwrap();
            let current_frame = sprite.region;
            let screen_position = pos.0.offset((width / 2) as i32, (height / 2) as i32);
            let screen_rect = Rect::from_center(
                screen_position,
                current_frame.width(),
                current_frame.height(),
            );
            ops.push(
                DrawOp { spritesheet: sprite.spritesheet, src: current_frame, dst: screen_rect },
            );
        }
        proof {
            let s = world.entities@;
            assert(s.take(i + 1).drop_last() =~= s.take(i as int));
            assert(s.take(i + 1).last() == s[i as int]);
        }
        i = i + 1;
    }
    proof {
        assert(world.entities@.take(n as int) =~= world.entities@);
    }
    ops
}

} // verus!
