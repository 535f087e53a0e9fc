//! Contact between two bodies: detection on their boxes, and the response of
//! a moving body that touches another one.
use vstd::prelude::*;

use crate::body::{
    clamp_coord, clamp_coord_spec, valid_coord, valid_shape, valid_speed, Body, Vec2,
    FRICTION_LIMIT, RESTITUTION_LIMIT, SIZE_LIMIT, SPEED_LIMIT,
};

verus! {

pub open spec fn min(a: int, b: int) -> int {
    if a <= b {
        a
    } else {
        b
    }
}

pub open spec fn max(a: int, b: int) -> int {
    if a >= b {
        a
    } else {
        b
    }
}

pub open spec fn abs(v: int) -> int {
    if v < 0 {
        -v
    } else {
        v
    }
}

/// Length shared by the intervals `[a0, a0 + alen]` and `[b0, b0 + blen]`;
/// zero or less when they do not overlap.
pub open spec fn overlap_len(a0: int, alen: int, b0: int, blen: int) -> int {
    min(a0 + alen, b0 + blen) - max(a0, b0)
}

pub open spec fn overlap_x(a: Body, b: Body) -> int {
    overlap_len(a.position.x as int, a.width(), b.position.x as int, b.width())
}

pub open spec fn overlap_y(a: Body, b: Body) -> int {
    overlap_len(a.position.y as int, a.height(), b.position.y as int, b.height())
}

/// The boxes of `a` and `b` share an area; boxes that only touch do not.
pub open spec fn overlaps_spec(a: Body, b: Body) -> bool {
    overlap_x(a, b) > 0 && overlap_y(a, b) > 0
}

/// Restitution of a contact: the mean of the two bodies' restitutions.
pub open spec fn combined_restitution(a: Body, b: Body) -> int {
    (a.material.restitution + b.material.restitution) / 2
}

/// Friction of a contact: the mean of the two bodies' frictions.
pub open spec fn combined_friction(a: Body, b: Body) -> int {
    (a.material.friction + b.material.friction) / 2
}

/// Speed away from the contact, after it, of a body that met it at speed `m`.
pub open spec fn bounce_spec(m: int, e: int) -> int {
    min(m * e / 100, SPEED_LIMIT as int)
}

/// Velocity along the contact, after friction `f` took its share.
pub open spec fn damp_spec(v: int, f: int) -> int {
    if v >= 0 {
        v * (100 - f) / 100
    } else {
        -((-v) * (100 - f) / 100)
    }
}

/// The contact normal is horizontal: the boxes overlap less along x than along y.
pub open spec fn normal_is_x(a: Body, b: Body) -> bool {
    overlap_x(a, b) < overlap_y(a, b)
}

/// `a` lies before `b` on the axis of the normal, so it leaves towards the negative side.
pub open spec fn before_on_normal(a: Body, b: Body) -> bool {
    if normal_is_x(a, b) {
        2 * a.position.x + a.width() < 2 * b.position.x + b.width()
    } else {
        2 * a.position.y + a.height() < 2 * b.position.y + b.height()
    }
}

/// What becomes of moving body `a` that overlaps `b`: it is set against `b`'s
/// side along the contact normal, its velocity along the normal turns away from
/// `b` with the contact's restitution, and its velocity along the contact loses
/// the contact's friction.
pub open spec fn respond_spec(a: Body, b: Body) -> Body {
    let e = combined_restitution(a, b);
    let f = combined_friction(a, b);
    let before = before_on_normal(a, b);
    if normal_is_x(a, b) {
        let x = if before {
            clamp_coord_spec(b.position.x - a.width())
        } else {
            clamp_coord_spec(b.position.x + b.width())
        };
        let m = bounce_spec(abs(a.velocity.x as int), e);
        let vx = if before {
            -m
        } else {
            m
        };
        Body {
            position: Vec2 { x: x as i64, y: a.position.y },
            velocity: Vec2 { x: vx as i64, y: damp_spec(a.velocity.y as int, f) as i64 },
            ..a
        }
    } else {
        let y = if before {
            clamp_coord_spec(b.position.y - a.height())
        } else {
            clamp_coord_spec(b.position.y + b.height())
        };
        let m = bounce_spec(abs(a.velocity.y as int), e);
        let vy = if before {
            -m
        } else {
            m
        };
        Body {
            position: Vec2 { x: a.position.x, y: y as i64 },
            velocity: Vec2 { x: damp_spec(a.velocity.x as int, f) as i64, y: vy as i64 },
            ..a
        }
    }
}

/// Whether the boxes of two bodies overlap.
pub fn overlaps(a: &Body, b: &Body) -> (r: bool)
    requires
        a.valid(),
        b.valid(),
    ensures
        r == overlaps_spec(*a, *b),
{
    let ox = overlap_along(a.position.x, a.box_width(), b.position.x, b.box_width());
    let oy = overlap_along(a.position.y, a.box_height(), b.position.y, b.box_height());
    ox > 0 && oy > 0
}

fn overlap_along(a0: i64, alen: i64, b0: i64, blen: i64) -> (r: i64)
    requires
        valid_coord(a0 as int),
        valid_coord(b0 as int),
        0 <= alen <= 2 * SIZE_LIMIT,
        0 <= blen <= 2 * SIZE_LIMIT,
    ensures
        r == overlap_len(a0 as int, alen as int, b0 as int, blen as int),
{
    let a1 = a0 + alen;
    let b1 = b0 + blen;
    let hi = if a1 <= b1 {
        a1
    } else {
        b1
    };
    let lo = if a0 >= b0 {
        a0
    } else {
        b0
    };
    hi - lo
}

fn bounce(m: i64, e: i64) -> (r: i64)
    requires
        0 <= m <= SPEED_LIMIT,
        0 <= e <= RESTITUTION_LIMIT,
    ensures
        r == bounce_spec(m as int, e as int),
        0 <= r <= SPEED_LIMIT,
{
    assert(0 <= m * e <= SPEED_LIMIT * RESTITUTION_LIMIT) by (nonlinear_arith)
        requires
            0 <= m <= SPEED_LIMIT,
            0 <= e <= RESTITUTION_LIMIT,
    ;
    let s = m * e / 100;
    if s <= SPEED_LIMIT {
        s
    } else {
        SPEED_LIMIT
    }
}

proof fn lemma_scaled_down(v: int, k: int)
    requires
        0 <= v,
        0 <= k <= 100,
    ensures
        0 <= v * k / 100 <= v,
{
    assert(0 <= v * k <= v * 100) by (nonlinear_arith)
        requires
            0 <= v,
            0 <= k <= 100,
    ;
    assert(v * k / 100 <= v * 100 / 100) by (nonlinear_arith)
        requires
            0 <= v * k <= v * 100,
    ;
}

fn damp(v: i64, f: i64) -> (r: i64)
    requires
        valid_speed(v as int),
        0 <= f <= FRICTION_LIMIT,
    ensures
        r == damp_spec(v as int, f as int),
        abs(r as int) <= abs(v as int),
{
    let k = 100 - f;
    if v >= 0 {
        proof {
            lemma_scaled_down(v as int, k as int);
        }
        v * k / 100
    } else {
        proof {
            lemma_scaled_down(-v, k as int);
        }
        let w = -v;
        -(w * k / 100)
    }
}

/// The state of moving body `a` after its contact with `b`.
pub fn respond(a: &Body, b: &Body) -> (r: Body)
    requires
        a.valid(),
        b.valid(),
    ensures
        r == respond_spec(*a, *b),
        r.valid(),
{
    let aw = a.box_width();
    let ah = a.box_height();
    let bw = b.box_width();
    let bh = b.box_height();
    let e = (a.material.restitution + b.material.restitution) / 2;
    let f = (a.material.friction + b.material.friction) / 2;
    let ox = overlap_along(a.position.x, aw, b.position.x, bw);
    let oy = overlap_along(a.position.y, ah, b.position.y, bh);
    if ox < oy {
        let before = 2 * a.position.x + aw < 2 * b.position.x + bw;
        let x = if before {
            clamp_coord(b.position.x - aw)
        } else {
            clamp_coord(b.position.x + bw)
        };
        let speed = if a.velocity.x < 0 {
            -a.velocity.x
        } else {
            a.velocity.x
        };
        let m = bounce(speed, e);
        let vx = if before {
            -m
        } else {
            m
        };
        let vy = damp(a.velocity.y, f);
        Body { position: Vec2 { x, y: a.position.y }, velocity: Vec2 { x: vx, y: vy }, ..*a }
    } else {
        let before = 2 * a.position.y + ah < 2 * b.position.y + bh;
        let y = if before {
            clamp_coord(b.position.y - ah)
        } else {
            clamp_coord(b.position.y + bh)
        };
        let speed = if a.velocity.y < 0 {
            -a.velocity.y
        } else {
            a.velocity.y
        };
        let m = bounce(speed, e);
        let vy = if before {
            -m
        } else {
            m
        };
        let vx = damp(a.velocity.x, f);
        Body { position: Vec2 { x: a.position.x, y }, velocity: Vec2 { x: vx, y: vy }, ..*a }
    }
}

/// A moving body that meets, from below, a body under a contact with
/// restitution of a hundred percent and no friction, such as a ball meeting
/// the top wall on its way up, leaves with its vertical velocity reversed and
/// its horizontal velocity unchanged.
pub proof fn lemma_elastic_bounce_from_below(a: Body, b: Body)
    requires
        a.valid(),
        b.valid(),
        overlaps_spec(a, b),
        !normal_is_x(a, b),
        !before_on_normal(a, b),
        combined_restitution(a, b) == 100,
        combined_friction(a, b) == 0,
        a.velocity.y < 0,
    ensures
        respond_spec(a, b).velocity.y == -a.velocity.y,
        respond_spec(a, b).velocity.x == a.velocity.x,
{
    let m = -a.velocity.y;
    let v = a.velocity.x as int;
    assert(m * 100 / 100 == m) by (nonlinear_arith);
    assert(v * 100 / 100 == v) by (nonlinear_arith);
    assert((-v) * 100 / 100 == -v) by (nonlinear_arith);
}

} // verus!
