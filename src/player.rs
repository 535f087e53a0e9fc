//! A paddle: one kinematic box that its two keys move up and down.
use vstd::prelude::*;

use crate::body::{
    body_error, clamp_coord, clamp_coord_spec, Body, BodyError, Material, MotionKind, Shape, Vec2,
    UNITS_PER_PIXEL,
};
use crate::draw::{DrawCommand, Primitive};
use crate::input::{Key, KeySet};
use crate::world::{body_of, create_handle, live, slots_create, slots_place, BodyHandle, World};

verus! {

/// Fifteen pixels.
pub const PLAYER_WIDTH: i64 = 15 * UNITS_PER_PIXEL;

/// Fifty pixels.
pub const PLAYER_HEIGHT: i64 = 50 * UNITS_PER_PIXEL;

/// How far a held key moves a paddle in one tick: five pixels.
pub const PLAYER_SPEED: i64 = 5 * UNITS_PER_PIXEL;

pub struct PongPlayer {
    pub body: BodyHandle,
    pub up_key: Key,
    pub down_key: Key,
}

/// The body of a paddle placed at `position`.
pub open spec fn paddle_body(position: Vec2) -> Body {
    Body {
        kind: MotionKind::Kinematic,
        shape: Shape::Rect { width: PLAYER_WIDTH, height: PLAYER_HEIGHT },
        position,
        velocity: Vec2 { x: 0, y: 0 },
        material: Material { restitution: 0, friction: 0 },
    }
}

pub open spec fn paddle_command(p: Vec2) -> DrawCommand {
    DrawCommand {
        primitive: Primitive::Rectangle,
        x: p.x,
        y: p.y,
        width: PLAYER_WIDTH,
        height: PLAYER_HEIGHT,
    }
}

/// `p` moved up by one paddle step, within the playable space.
pub open spec fn raised(p: Vec2) -> Vec2 {
    Vec2 { x: p.x, y: clamp_coord_spec(p.y - PLAYER_SPEED) as i64 }
}

/// `p` moved down by one paddle step, within the playable space.
pub open spec fn lowered(p: Vec2) -> Vec2 {
    Vec2 { x: p.x, y: clamp_coord_spec(p.y + PLAYER_SPEED) as i64 }
}

/// Where a paddle at `p` stands after a tick in which its up key was held
/// (`up`) and its down key was held (`down`): each held key adds its step, and
/// the sum is brought into the playable space once, so two held keys cancel.
pub open spec fn paddle_target(p: Vec2, up: bool, down: bool) -> Vec2 {
    Vec2 { x: p.x, y: clamp_coord_spec(p.y + paddle_delta(up, down)) as i64 }
}

/// How far a tick moves a paddle down, before it is brought into the playable space.
pub open spec fn paddle_delta(up: bool, down: bool) -> int {
    (if down {
        PLAYER_SPEED as int
    } else {
        0
    }) - (if up {
        PLAYER_SPEED as int
    } else {
        0
    })
}

/// The body of `b` placed at `p`.
pub open spec fn placed(b: Body, p: Vec2) -> Body {
    Body { position: p, ..b }
}

impl PongPlayer {
    /// The table after this paddle answered the keys in `keys` for one tick.
    pub open spec fn slots_after_update(
        self,
        s: Seq<crate::world::Slot>,
        keys: Set<Key>,
    ) -> Seq<crate::world::Slot> {
        slots_place(
            s,
            self.body,
            paddle_target(
                body_of(s, self.body).position,
                keys.contains(self.up_key),
                keys.contains(self.down_key),
            ),
        )
    }

    /// Adds a paddle at `position` to `world`, driven by `up_key` and
    /// `down_key`; refuses a position beyond the limits of the simulation.
    pub fn new(world: &mut World, position: Vec2, up_key: Key, down_key: Key) -> (r: Result<
        PongPlayer,
        BodyError,
    >)
        requires
            old(world).wf(),
        ensures
            final(world).wf(),
            match r {
                Ok(p) => {
                    &&& paddle_body(position).valid()
                    &&& p.body == create_handle(old(world)@)
                    &&& p.up_key == up_key
                    &&& p.down_key == down_key
                    &&& final(world)@ == slots_create(old(world)@, paddle_body(position))
                    &&& !live(old(world)@, p.body)
                    &&& live(final(world)@, p.body)
                    &&& body_of(final(world)@, p.body) == paddle_body(position)
                },
                Err(e) => body_error(paddle_body(position)) == Some(e) && final(world)@
                    == old(world)@,
            },
            r is Ok ==> forall|g: BodyHandle| #[trigger]
                live(old(world)@, g) ==> live(final(world)@, g) && body_of(final(world)@, g)
                    == body_of(old(world)@, g),
    {
        let body = Body {
            kind: MotionKind::Kinematic,
            shape: Shape::Rect { width: PLAYER_WIDTH, height: PLAYER_HEIGHT },
            position,
            velocity: Vec2 { x: 0, y: 0 },
            material: Material { restitution: 0, friction: 0 },
        };
        match world.create(body) {
            Ok(h) => Ok(PongPlayer { body: h, up_key, down_key }),
            Err(e) => Err(e),
        }
    }

    /// Moves the paddle up by `PLAYER_SPEED`; does nothing once its body has
    /// been removed.
    pub fn move_up(&self, world: &mut World)
        requires
            old(world).wf(),
        ensures
            final(world).wf(),
            final(world)@ == slots_place(
                old(world)@,
                self.body,
                raised(body_of(old(world)@, self.body).position),
            ),
            live(final(world)@, self.body) == live(old(world)@, self.body),
            live(old(world)@, self.body) ==> body_of(final(world)@, self.body) == placed(
                body_of(old(world)@, self.body),
                raised(body_of(old(world)@, self.body).position),
            ),
            forall|g: BodyHandle| #[trigger]
                live(old(world)@, g) && g != self.body ==> live(final(world)@, g) && body_of(
                    final(world)@,
                    g,
                ) == body_of(old(world)@, g),
    {
        if let Some(b) = world.get(self.body) {
            proof {
                assert(old(world)@[self.body.index as int].body is Some);
            }
            let p = Vec2 { x: b.position.x, y: clamp_coord(b.position.y - PLAYER_SPEED) };
            world.set_position(self.body, p);
        }
    }

    /// Moves the paddle down by `PLAYER_SPEED`; does nothing once its body
    /// has been removed.
    pub fn move_down(&self, world: &mut World)
        requires
            old(world).wf(),
        ensures
            final(world).wf(),
            final(world)@ == slots_place(
                old(world)@,
                self.body,
                lowered(body_of(old(world)@, self.body).position),
            ),
            live(final(world)@, self.body) == live(old(world)@, self.body),
            live(old(world)@, self.body) ==> body_of(final(world)@, self.body) == placed(
                body_of(old(world)@, self.body),
                lowered(body_of(old(world)@, self.body).position),
            ),
            forall|g: BodyHandle| #[trigger]
                live(old(world)@, g) && g != self.body ==> live(final(world)@, g) && body_of(
                    final(world)@,
                    g,
                ) == body_of(old(world)@, g),
    {
        if let Some(b) = world.get(self.body) {
            proof {
                assert(old(world)@[self.body.index as int].body is Some);
            }
            let p = Vec2 { x: b.position.x, y: clamp_coord(b.position.y + PLAYER_SPEED) };
            world.set_position(self.body, p);
        }
    }

    /// Applies one tick of the held keys: `up_key` moves the paddle up by
    /// `PLAYER_SPEED` and `down_key` moves it down by `PLAYER_SPEED`; with both
    /// held the two steps cancel.
    pub fn update(&self, world: &mut World, keys: &KeySet)
        requires
            old(world).wf(),
        ensures
            final(world).wf(),
            final(world)@ == self.slots_after_update(old(world)@, keys@),
            live(final(world)@, self.body) == live(old(world)@, self.body),
            live(old(world)@, self.body) ==> body_of(final(world)@, self.body) == placed(
                body_of(old(world)@, self.body),
                paddle_target(
                    body_of(old(world)@, self.body).position,
                    keys@.contains(self.up_key),
                    keys@.contains(self.down_key),
                ),
            ),
            forall|g: BodyHandle| #[trigger]
                live(old(world)@, g) && g != self.body ==> live(final(world)@, g) && body_of(
                    final(world)@,
                    g,
                ) == body_of(old(world)@, g),
    {
        let up = keys.contains(self.up_key);
        let down = keys.contains(self.down_key);
        if let Some(b) = world.get(self.body) {
            proof {
                assert(old(world)@[self.body.index as int].body is Some);
            }
            let mut delta: i64 = 0;
            if down {
                delta = delta + PLAYER_SPEED;
            }
            if up {
                delta = delta - PLAYER_SPEED;
            }
            let p = Vec2 { x: b.position.x, y: clamp_coord(b.position.y + delta) };
            world.set_position(self.body, p);
        }
    }

    /// A rectangle of the paddle's size at its position, or nothing once its
    /// body has been removed.
    pub fn render(&self, world: &World) -> (r: Option<DrawCommand>)
        ensures
            r == (if live(world@, self.body) {
                Some(paddle_command(body_of(world@, self.body).position))
            } else {
                None
            }),
    {
        match world.get(self.body) {
            Some(b) => Some(
                DrawCommand {
                    primitive: Primitive::Rectangle,
                    x: b.position.x,
                    y: b.position.y,
                    width: PLAYER_WIDTH,
                    height: PLAYER_HEIGHT,
                },
            ),
            None => None,
        }
    }
}

} // verus!
