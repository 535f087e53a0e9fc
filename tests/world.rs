use pong::ball::PongBall;
use pong::body::{Body, BodyError, Material, MotionKind, Shape, Vec2, COORD_LIMIT, UNITS_PER_PIXEL};
use pong::draw::{DrawCommand, Primitive};
use pong::contact::{overlaps, respond};
use pong::wall::Wall;
use pong::world::World;

fn body(kind: MotionKind, shape: Shape, position: Vec2, velocity: Vec2, restitution: i64, friction: i64) -> Body {
    Body { kind, shape, position, velocity, material: Material { restitution, friction } }
}

#[test]
fn top_wall_flips_vertical_velocity() {
    // The wall's body spans y -30..30 in units, around the edge line y == 0.
    let mut world = World::new();
    Wall::new(&mut world, 0).unwrap();
    let ball = PongBall::new(&mut world, Vec2 { x: 100, y: 40 }, Vec2 { x: 4, y: -20 }).unwrap();
    world.step();
    let b = world.get(ball.body).unwrap();
    assert_eq!(b.velocity, Vec2 { x: 4, y: 20 });
    assert_eq!(b.position, Vec2 { x: 104, y: 30 });
}

#[test]
fn wall_body_and_band() {
    let mut world = World::new();
    let wall = Wall::new(&mut world, 400 * UNITS_PER_PIXEL).unwrap();
    let b = world.get(wall.body).unwrap();
    assert_eq!(b.kind, MotionKind::Static);
    assert_eq!(b.shape, Shape::Rect { width: 1600 * UNITS_PER_PIXEL, height: UNITS_PER_PIXEL });
    assert_eq!(b.position, Vec2 { x: -800 * UNITS_PER_PIXEL, y: 400 * UNITS_PER_PIXEL - UNITS_PER_PIXEL / 2 });
    assert_eq!(b.material, Material { restitution: 0, friction: 0 });
    assert_eq!(
        wall.render(),
        DrawCommand { primitive: Primitive::Rectangle, x: 0, y: 400 * UNITS_PER_PIXEL, width: 800 * UNITS_PER_PIXEL, height: 20 * UNITS_PER_PIXEL }
    );
}

#[test]
fn wall_outside_space_is_refused() {
    let mut world = World::new();
    assert_eq!(Wall::new(&mut world, -COORD_LIMIT).err(), Some(BodyError::InvalidPosition));
    assert_eq!(Wall::new(&mut world, COORD_LIMIT + 1).err(), Some(BodyError::InvalidPosition));
    assert!(world.get(pong::world::BodyHandle { index: 0, generation: 0 }).is_none());
}

#[test]
fn dynamic_body_moves_by_velocity() {
    let mut world = World::new();
    let ball = PongBall::new(&mut world, Vec2 { x: 10, y: 10 }, Vec2 { x: 3, y: -7 }).unwrap();
    world.step();
    assert_eq!(ball.get_position(&world), Some(Vec2 { x: 13, y: 3 }));
}

#[test]
fn static_and_kinematic_bodies_stay() {
    let mut world = World::new();
    let wall = world
        .create(body(MotionKind::Static, Shape::Rect { width: 5, height: 5 }, Vec2 { x: 1, y: 1 }, Vec2 { x: 9, y: 9 }, 0, 0))
        .unwrap();
    let paddle = world
        .create(body(MotionKind::Kinematic, Shape::Rect { width: 5, height: 5 }, Vec2 { x: 50, y: 1 }, Vec2 { x: 9, y: 9 }, 0, 0))
        .unwrap();
    world.step();
    assert_eq!(world.get(wall).unwrap().position, Vec2 { x: 1, y: 1 });
    assert_eq!(world.get(paddle).unwrap().position, Vec2 { x: 50, y: 1 });
}

#[test]
fn removed_handle_is_absent_even_after_reuse() {
    let mut world = World::new();
    let first = PongBall::new(&mut world, Vec2 { x: 0, y: 0 }, Vec2 { x: 1, y: 1 }).unwrap();
    world.remove(first.body);
    assert!(world.get(first.body).is_none());
    assert!(first.get_position(&world).is_none());
    assert!(first.render(&world).is_none());
    let second = PongBall::new(&mut world, Vec2 { x: 5, y: 5 }, Vec2 { x: 1, y: 1 }).unwrap();
    assert_eq!(second.body.index, first.body.index);
    assert_ne!(second.body, first.body);
    assert!(world.get(first.body).is_none());
    assert_eq!(second.get_position(&world), Some(Vec2 { x: 5, y: 5 }));
    world.remove(first.body);
    assert!(world.get(second.body).is_some());
}

#[test]
fn invalid_bodies_are_refused() {
    let mut world = World::new();
    let zero = Vec2 { x: 0, y: 0 };
    assert_eq!(
        world.create(body(MotionKind::Dynamic, Shape::Circle { radius: -1 }, zero, zero, 0, 0)).err(),
        Some(BodyError::InvalidShape)
    );
    assert_eq!(
        world.create(body(MotionKind::Static, Shape::Rect { width: 3, height: 0 }, zero, zero, 0, 0)).err(),
        Some(BodyError::InvalidShape)
    );
    assert_eq!(
        world.create(body(MotionKind::Dynamic, Shape::Circle { radius: 1 }, zero, zero, -5, 0)).err(),
        Some(BodyError::InvalidMaterial)
    );
    assert_eq!(
        world.create(body(MotionKind::Dynamic, Shape::Circle { radius: 1 }, zero, zero, 0, 101)).err(),
        Some(BodyError::InvalidMaterial)
    );
    assert!(world.get(pong::world::BodyHandle { index: 0, generation: 0 }).is_none());
}

#[test]
fn boxes_that_touch_do_not_overlap() {
    let zero = Vec2 { x: 0, y: 0 };
    let a = body(MotionKind::Dynamic, Shape::Rect { width: 10, height: 10 }, zero, zero, 0, 0);
    let b = body(MotionKind::Static, Shape::Rect { width: 10, height: 10 }, Vec2 { x: 10, y: 0 }, zero, 0, 0);
    let c = body(MotionKind::Static, Shape::Rect { width: 10, height: 10 }, Vec2 { x: 9, y: 9 }, zero, 0, 0);
    assert!(!overlaps(&a, &b));
    assert!(overlaps(&a, &c));
}

#[test]
fn response_uses_mean_restitution_and_friction() {
    // Restitution 100 and 50 give 75; friction 100 and 0 give 50.
    let a = body(MotionKind::Dynamic, Shape::Rect { width: 10, height: 10 }, Vec2 { x: 0, y: 8 }, Vec2 { x: 8, y: 4 }, 100, 100);
    let floor = body(MotionKind::Static, Shape::Rect { width: 100, height: 10 }, Vec2 { x: -50, y: 10 }, Vec2 { x: 0, y: 0 }, 50, 0);
    let r = respond(&a, &floor);
    assert_eq!(r.position, Vec2 { x: 0, y: 0 });
    assert_eq!(r.velocity, Vec2 { x: 4, y: -3 });
}

#[test]
fn super_elastic_pair_doubles_speed() {
    let a = body(MotionKind::Dynamic, Shape::Circle { radius: 5 }, Vec2 { x: 0, y: 0 }, Vec2 { x: 6, y: -3 }, 200, 0);
    let b = body(MotionKind::Dynamic, Shape::Circle { radius: 5 }, Vec2 { x: 8, y: -1 }, Vec2 { x: 0, y: 0 }, 200, 0);
    let r = respond(&a, &b);
    assert_eq!(r.position, Vec2 { x: -2, y: 0 });
    assert_eq!(r.velocity, Vec2 { x: -12, y: -3 });
}
