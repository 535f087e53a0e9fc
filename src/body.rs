//! Physical state of one simulated body.
//!
//! Lengths are in world units, a sixtieth of a pixel each, and velocities in
//! world units per tick. At sixty ticks a second, a speed of `v` pixels per
//! second is then exactly `v` units per tick.
//!
//! Every body is placed by its top-left corner. A circle of radius `r`
//! occupies the square of side `2 * r` whose corner is the body's position.
//! Contacts are found and resolved on these axis-aligned boxes.
use vstd::prelude::*;

verus! {

/// Ticks of the simulation in one second.
pub const TICKS_PER_SECOND: i64 = 60;

/// World units in one pixel.
pub const UNITS_PER_PIXEL: i64 = TICKS_PER_SECOND;

/// Largest distance from the origin, on either axis, that a position may have.
pub const COORD_LIMIT: i64 = 1_000_000_000;

/// Largest speed, on either axis, in units per tick.
pub const SPEED_LIMIT: i64 = 1_000_000;

/// Largest radius, width or height of a shape.
pub const SIZE_LIMIT: i64 = 1_000_000;

/// Largest restitution, in percent.
pub const RESTITUTION_LIMIT: i64 = 1000;

/// Largest friction, in percent.
pub const FRICTION_LIMIT: i64 = 100;

/// A point or a displacement on the playfield.
#[derive(Clone, Copy, Debug, PartialEq, Eq, Structural)]
pub struct Vec2 {
    pub x: i64,
    pub y: i64,
}

/// How the simulation moves a body.
#[derive(Clone, Copy, Debug, PartialEq, Eq, Structural)]
pub enum MotionKind {
    /// Moved by its velocity at every step, and pushed back by contacts.
    Dynamic,
    /// Moved only by direct placement; other bodies bounce off it.
    Kinematic,
    /// Never moves.
    Static,
}

#[derive(Clone, Copy, Debug, PartialEq, Eq, Structural)]
pub enum Shape {
    Circle { radius: i64 },
    Rect { width: i64, height: i64 },
}

/// How a body answers a contact, in percent.
#[derive(Clone, Copy, Debug, PartialEq, Eq, Structural)]
pub struct Material {
    pub restitution: i64,
    pub friction: i64,
}

#[derive(Clone, Copy, Debug, PartialEq, Eq, Structural)]
pub struct Body {
    pub kind: MotionKind,
    pub shape: Shape,
    pub position: Vec2,
    pub velocity: Vec2,
    pub material: Material,
}

/// Why a body was refused at construction.
#[derive(Clone, Copy, Debug, PartialEq, Eq, Structural)]
pub enum BodyError {
    /// A radius, width or height is not in `1..=SIZE_LIMIT`.
    InvalidShape,
    /// A coordinate is not in `-COORD_LIMIT..=COORD_LIMIT`.
    InvalidPosition,
    /// A velocity component is not in `-SPEED_LIMIT..=SPEED_LIMIT`.
    InvalidVelocity,
    /// Restitution or friction is out of range.
    InvalidMaterial,
}

pub open spec fn clamp(v: int, lo: int, hi: int) -> int {
    if v < lo {
        lo
    } else if v > hi {
        hi
    } else {
        v
    }
}

/// A coordinate brought into the playable space.
pub open spec fn clamp_coord_spec(v: int) -> int {
    clamp(v, -COORD_LIMIT, COORD_LIMIT as int)
}

pub open spec fn valid_coord(v: int) -> bool {
    -COORD_LIMIT <= v <= COORD_LIMIT
}

pub open spec fn valid_point(p: Vec2) -> bool {
    valid_coord(p.x as int) && valid_coord(p.y as int)
}

pub open spec fn valid_speed(v: int) -> bool {
    -SPEED_LIMIT <= v <= SPEED_LIMIT
}

pub open spec fn valid_velocity(v: Vec2) -> bool {
    valid_speed(v.x as int) && valid_speed(v.y as int)
}

pub open spec fn valid_size(v: int) -> bool {
    1 <= v <= SIZE_LIMIT
}

pub open spec fn valid_shape(s: Shape) -> bool {
    match s {
        Shape::Circle { radius } => valid_size(radius as int),
        Shape::Rect { width, height } => valid_size(width as int) && valid_size(height as int),
    }
}

pub open spec fn valid_material(m: Material) -> bool {
    0 <= m.restitution <= RESTITUTION_LIMIT && 0 <= m.friction <= FRICTION_LIMIT
}

/// The first check that `b` fails, if any, in the order the variants of
/// `BodyError` are listed.
pub open spec fn body_error(b: Body) -> Option<BodyError> {
    if !valid_shape(b.shape) {
        Some(BodyError::InvalidShape)
    } else if !valid_point(b.position) {
        Some(BodyError::InvalidPosition)
    } else if !valid_velocity(b.velocity) {
        Some(BodyError::InvalidVelocity)
    } else if !valid_material(b.material) {
        Some(BodyError::InvalidMaterial)
    } else {
        None
    }
}

impl Body {
    pub open spec fn valid(self) -> bool {
        body_error(self) is None
    }

    /// Width of the box that the body occupies.
    pub open spec fn width(self) -> int {
        match self.shape {
            Shape::Circle { radius } => 2 * radius,
            Shape::Rect { width, .. } => width as int,
        }
    }

    /// Height of the box that the body occupies.
    pub open spec fn height(self) -> int {
        match self.shape {
            Shape::Circle { radius } => 2 * radius,
            Shape::Rect { height, .. } => height as int,
        }
    }

    /// Checks the body against the limits of the simulation.
    pub fn validate(&self) -> (r: Result<(), BodyError>)
        ensures
            r == (match body_error(*self) {
                Some(e) => Err::<(), BodyError>(e),
                None => Ok(()),
            }),
    {
        let shape_ok = match self.shape {
            Shape::Circle { radius } => 1 <= radius && radius <= SIZE_LIMIT,
            Shape::Rect { width, height } => 1 <= width && width <= SIZE_LIMIT && 1 <= height
                && height <= SIZE_LIMIT,
        };
        if !shape_ok {
            return Err(BodyError::InvalidShape);
        }
        if !(coord_in_range(self.position.x) && coord_in_range(self.position.y)) {
            return Err(BodyError::InvalidPosition);
        }
        if !(speed_in_range(self.velocity.x) && speed_in_range(self.velocity.y)) {
            return Err(BodyError::InvalidVelocity);
        }
        let m = self.material;
        if !(0 <= m.restitution && m.restitution <= RESTITUTION_LIMIT && 0 <= m.friction
            && m.friction <= FRICTION_LIMIT) {
            return Err(BodyError::InvalidMaterial);
        }
        Ok(())
    }

    pub fn box_width(&self) -> (r: i64)
        requires
            valid_shape(self.shape),
        ensures
            r == self.width(),
    {
        match self.shape {
            Shape::Circle { radius } => 2 * radius,
            Shape::Rect { width, .. } => width,
        }
    }

    pub fn box_height(&self) -> (r: i64)
        requires
            valid_shape(self.shape),
        ensures
            r == self.height(),
    {
        match self.shape {
            Shape::Circle { radius } => 2 * radius,
            Shape::Rect { height, .. } => height,
        }
    }
}

fn coord_in_range(v: i64) -> (r: bool)
    ensures
        r == valid_coord(v as int),
{
    -COORD_LIMIT <= v && v <= COORD_LIMIT
}

fn speed_in_range(v: i64) -> (r: bool)
    ensures
        r == valid_speed(v as int),
{
    -SPEED_LIMIT <= v && v <= SPEED_LIMIT
}

/// Brings a coordinate into the playable space.
pub fn clamp_coord(v: i64) -> (r: i64)
    ensures
        r == clamp_coord_spec(v as int),
        valid_coord(r as int),
{
    if v < -COORD_LIMIT {
        -COORD_LIMIT
    } else if v > COORD_LIMIT {
        COORD_LIMIT
    } else {
        v
    }
}

} // verus!
