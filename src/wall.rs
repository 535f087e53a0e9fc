//! A wall: one static box along a horizontal edge of the playfield.
//!
//! The wall's body is a thin box centred on the edge line and reaching well
//! past both sides of the playfield; what is drawn is a fixed band that hangs
//! from the edge line across the playfield's width.
use vstd::prelude::*;

use crate::body::{
    valid_coord, Body, BodyError, Material, MotionKind, Shape, Vec2, COORD_LIMIT,
    UNITS_PER_PIXEL,
};
use crate::draw::{DrawCommand, Primitive};
use crate::world::{body_of, create_handle, live, slots_create, BodyHandle, World};

verus! {

/// Length of a wall's body: 1600 pixels, from 800 pixels left of the
/// playfield to its right side and as far again.
pub const WALL_BODY_LENGTH: i64 = 1600 * UNITS_PER_PIXEL;

/// Left end of a wall's body.
pub const WALL_BODY_LEFT: i64 = -800 * UNITS_PER_PIXEL;

/// Thickness of a wall's body: one pixel, half of it on each side of the edge line.
pub const WALL_BODY_HEIGHT: i64 = UNITS_PER_PIXEL;

/// Length of the band drawn for a wall: the playfield's width, 800 pixels.
pub const WALL_DRAW_LENGTH: i64 = 800 * UNITS_PER_PIXEL;

/// Height of the band drawn for a wall: twenty pixels.
pub const WALL_DRAW_HEIGHT: i64 = 20 * UNITS_PER_PIXEL;

pub struct Wall {
    pub body: BodyHandle,
    /// The edge line the wall stands on.
    pub edge_y: i64,
}

/// The body of a wall on the edge line `edge_y`.
pub open spec fn wall_body(edge_y: i64) -> Body {
    Body {
        kind: MotionKind::Static,
        shape: Shape::Rect { width: WALL_BODY_LENGTH, height: WALL_BODY_HEIGHT },
        position: Vec2 { x: WALL_BODY_LEFT, y: (edge_y - WALL_BODY_HEIGHT / 2) as i64 },
        velocity: Vec2 { x: 0, y: 0 },
        material: Material { restitution: 0, friction: 0 },
    }
}

/// The band drawn for a wall on the edge line `edge_y`.
pub open spec fn wall_command(edge_y: i64) -> DrawCommand {
    DrawCommand {
        primitive: Primitive::Rectangle,
        x: 0,
        y: edge_y,
        width: WALL_DRAW_LENGTH,
        height: WALL_DRAW_HEIGHT,
    }
}

/// A wall can stand on `edge_y`: its body lies within the playable space.
pub open spec fn valid_edge(edge_y: int) -> bool {
    valid_coord(edge_y) && valid_coord(edge_y - WALL_BODY_HEIGHT / 2)
}

impl Wall {
    /// Adds a wall on the edge line `edge_y` to `world`; refuses an edge
    /// whose body would leave the playable space.
    pub fn new(world: &mut World, edge_y: i64) -> (r: Result<Wall, BodyError>)
        requires
            old(world).wf(),
        ensures
            final(world).wf(),
            match r {
                Ok(w) => {
                    &&& valid_edge(edge_y as int)
                    &&& w.edge_y == edge_y
                    &&& w.body == create_handle(old(world)@)
                    &&& final(world)@ == slots_create(old(world)@, wall_body(edge_y))
                    &&& !live(old(world)@, w.body)
                    &&& live(final(world)@, w.body)
                    &&& body_of(final(world)@, w.body) == wall_body(edge_y)
                },
                Err(e) => {
                    &&& !valid_edge(edge_y as int)
                    &&& e == BodyError::InvalidPosition
                    &&& final(world)@ == old(world)@
                },
            },
            r is Ok ==> forall|g: BodyHandle| #[trigger]
                live(old(world)@, g) ==> live(final(world)@, g) && body_of(final(world)@, g)
                    == body_of(old(world)@, g),
    {
        if edge_y < -COORD_LIMIT || edge_y > COORD_LIMIT {
            return Err(BodyError::InvalidPosition);
        }
        let body = Body {
            kind: MotionKind::Static,
            shape: Shape::Rect { width: WALL_BODY_LENGTH, height: WALL_BODY_HEIGHT },
            position: Vec2 { x: WALL_BODY_LEFT, y: edge_y - WALL_BODY_HEIGHT / 2 },
            velocity: Vec2 { x: 0, y: 0 },
            material: Material { restitution: 0, friction: 0 },
        };
        match world.create(body) {
            Ok(h) => Ok(Wall { body: h, edge_y }),
            Err(e) => Err(e),
        }
    }

    /// The band drawn for this wall, which depends on its edge line alone.
    pub fn render(&self) -> (r: DrawCommand)
        ensures
            r == wall_command(self.edge_y),
    {
        DrawCommand {
            primitive: Primitive::Rectangle,
            x: 0,
            y: self.edge_y,
            width: WALL_DRAW_LENGTH,
            height: WALL_DRAW_HEIGHT,
        }
    }
}

} // verus!
