//! The ball: one dynamic circular body.
use vstd::prelude::*;

use crate::body::{
    body_error, Body, BodyError, Material, MotionKind, Shape, Vec2, UNITS_PER_PIXEL,
};
use crate::draw::{DrawCommand, Primitive};
use crate::world::{body_of, create_handle, live, slots_create, BodyHandle, World};

verus! {

/// Radius of the ball's body, and the size at which it is drawn: twenty pixels.
pub const BALL_SIZE: i64 = 20 * UNITS_PER_PIXEL;

/// Horizontal component of the velocity a ball is spawned with: 76 pixels per
/// second, which is 76 units per tick.
pub const BALL_HORIZONTAL_SPEED: i64 = 76;

/// Vertical component of the velocity a ball is spawned with: 40 pixels per
/// second, which is 40 units per tick.
pub const BALL_VERTICAL_SPEED: i64 = 40;

/// Restitution of the ball in percent: above a hundred, so it gains speed when
/// it bounces off a body that is just as lively.
pub const BALL_RESTITUTION: i64 = 200;

pub struct PongBall {
    pub body: BodyHandle,
}

/// The body of a ball spawned at `position` with `velocity`.
pub open spec fn ball_body(position: Vec2, velocity: Vec2) -> Body {
    Body {
        kind: MotionKind::Dynamic,
        shape: Shape::Circle { radius: BALL_SIZE },
        position,
        velocity,
        material: Material { restitution: BALL_RESTITUTION, friction: 0 },
    }
}

pub open spec fn ball_command(p: Vec2) -> DrawCommand {
    DrawCommand {
        primitive: Primitive::Ellipse,
        x: p.x,
        y: p.y,
        width: BALL_SIZE,
        height: BALL_SIZE,
    }
}

impl PongBall {
    /// Adds a ball to `world`; refuses a position or a velocity beyond the
    /// limits of the simulation.
    pub fn new(world: &mut World, position: Vec2, velocity: Vec2) -> (r: Result<
        PongBall,
        BodyError,
    >)
        requires
            old(world).wf(),
        ensures
            final(world).wf(),
            match r {
                Ok(b) => {
                    &&& ball_body(position, velocity).valid()
                    &&& b.body == create_handle(old(world)@)
                    &&& final(world)@ == slots_create(old(world)@, ball_body(position, velocity))
                    &&& !live(old(world)@, b.body)
                    &&& live(final(world)@, b.body)
                    &&& body_of(final(world)@, b.body) == ball_body(position, velocity)
                },
                Err(e) => body_error(ball_body(position, velocity)) == Some(e) && final(world)@
                    == old(world)@,
            },
            r is Ok ==> forall|g: BodyHandle| #[trigger]
                live(old(world)@, g) ==> live(final(world)@, g) && body_of(final(world)@, g)
                    == body_of(old(world)@, g),
    {
        let body = Body {
            kind: MotionKind::Dynamic,
            shape: Shape::Circle { radius: BALL_SIZE },
            position,
            velocity,
            material: Material { restitution: BALL_RESTITUTION, friction: 0 },
        };
        match world.create(body) {
            Ok(h) => Ok(PongBall { body: h }),
            Err(e) => Err(e),
        }
    }

    /// Where the ball is, or `None` once its body has been removed.
    pub fn get_position(&self, world: &World) -> (r: Option<Vec2>)
        ensures
            r == (if live(world@, self.body) {
                Some(body_of(world@, self.body).position)
            } else {
                None
            }),
    {
        match world.get(self.body) {
            Some(b) => Some(b.position),
            None => None,
        }
    }

    /// An ellipse of `BALL_SIZE` at the ball's position, or nothing once its
    /// body has been removed.
    pub fn render(&self, world: &World) -> (r: Option<DrawCommand>)
        ensures
            r == (if live(world@, self.body) {
                Some(ball_command(body_of(world@, self.body).position))
            } else {
                None
            }),
    {
        match self.get_position(world) {
            Some(p) => Some(
                DrawCommand {
                    primitive: Primitive::Ellipse,
                    x: p.x,
                    y: p.y,
                    width: BALL_SIZE,
                    height: BALL_SIZE,
                },
            ),
            None => None,
        }
    }
}

} // verus!
