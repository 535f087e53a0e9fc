use pong::body::Vec2;
use pong::input::{Key, KeySet};
use pong::player::{PongPlayer, PLAYER_SPEED};
use pong::world::World;

fn init_player(world: &mut World) -> PongPlayer {
    PongPlayer::new(world, Vec2 { x: 0, y: 0 }, Key::W, Key::S).unwrap()
}

fn paddle_y(world: &World, player: &PongPlayer) -> i64 {
    if let Some(body) = world.get(player.body) {
        body.position.y
    } else {
        0
    }
}

#[test]
fn player_move_down() {
    let mut world = World::new();
    let player = init_player(&mut world);

    let initial_pos = paddle_y(&world, &player);
    player.move_down(&mut world);
    let new_pos = paddle_y(&world, &player);

    assert_eq!(initial_pos + PLAYER_SPEED, new_pos);
}

#[test]
fn player_move_up() {
    let mut world = World::new();
    let player = init_player(&mut world);

    let initial_pos = paddle_y(&world, &player);
    player.move_up(&mut world);
    let new_pos = paddle_y(&world, &player);

    assert_eq!(initial_pos - PLAYER_SPEED, new_pos);
}

#[test]
fn removed_paddle_does_not_move() {
    let mut world = World::new();
    let player = init_player(&mut world);
    world.remove(player.body);
    player.move_up(&mut world);
    player.move_down(&mut world);
    assert!(world.get(player.body).is_none());
    assert!(player.render(&world).is_none());
}

#[test]
fn paddle_stops_at_edge_of_space() {
    let mut world = World::new();
    let limit = pong::body::COORD_LIMIT;
    let player = PongPlayer::new(&mut world, Vec2 { x: 0, y: -limit + 2 }, Key::W, Key::S).unwrap();
    player.move_up(&mut world);
    assert_eq!(paddle_y(&world, &player), -limit);
}

#[test]
fn both_keys_cancel_at_edge_of_space() {
    let mut world = World::new();
    let limit = pong::body::COORD_LIMIT;
    let player = PongPlayer::new(&mut world, Vec2 { x: 0, y: -limit }, Key::W, Key::S).unwrap();
    let mut keys = KeySet::new();
    keys.insert(Key::W);
    keys.insert(Key::S);
    player.update(&mut world, &keys);
    assert_eq!(paddle_y(&world, &player), -limit);
}
