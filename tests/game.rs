use pong::ball::{BALL_HORIZONTAL_SPEED, BALL_SIZE, BALL_VERTICAL_SPEED};
use pong::body::{BodyError, Vec2, UNITS_PER_PIXEL};
use pong::draw::{DrawCommand, Primitive};
use pong::game::{goal_for, Game, Scorer};
use pong::input::{Key, KeyEvent, KeyState};
use pong::player::{PLAYER_HEIGHT, PLAYER_SPEED, PLAYER_WIDTH};

fn px(n: i64) -> i64 {
    n * UNITS_PER_PIXEL
}

fn press(game: &mut Game, key: Key) {
    game.handle_keyboard_event(KeyEvent { key, state: KeyState::Press });
}

fn release(game: &mut Game, key: Key) {
    game.handle_keyboard_event(KeyEvent { key, state: KeyState::Release });
}

#[test]
fn new_game_layout() {
    let game = Game::new();
    assert_eq!(game.score(), (0, 0));
    assert_eq!(game.ball_position(), Some(Vec2 { x: px(50), y: px(50) }));
    assert_eq!(
        game.ball_velocity(),
        Vec2 { x: BALL_HORIZONTAL_SPEED, y: BALL_VERTICAL_SPEED }
    );
    assert_eq!(game.ball_velocity(), Vec2 { x: 76, y: 40 });
    assert_eq!(
        game.paddle_positions(),
        (Vec2 { x: px(50), y: px(200) }, Vec2 { x: px(735), y: px(300) })
    );
}

#[test]
fn idle_tick_keeps_paddles() {
    let mut game = Game::new();
    let before = game.paddle_positions();
    game.update();
    assert_eq!(game.paddle_positions(), before);
    press(&mut game, Key::Other(32));
    game.update();
    assert_eq!(game.paddle_positions(), before);
}

#[test]
fn up_key_alone_raises_paddle() {
    let mut game = Game::new();
    let (one, two) = game.paddle_positions();
    press(&mut game, Key::W);
    press(&mut game, Key::Up);
    game.update();
    let (one_after, two_after) = game.paddle_positions();
    assert_eq!(one_after, Vec2 { x: one.x, y: one.y - PLAYER_SPEED });
    assert_eq!(two_after, Vec2 { x: two.x, y: two.y - PLAYER_SPEED });
}

#[test]
fn down_key_alone_lowers_paddle() {
    let mut game = Game::new();
    let (one, two) = game.paddle_positions();
    press(&mut game, Key::S);
    press(&mut game, Key::Down);
    game.update();
    let (one_after, two_after) = game.paddle_positions();
    assert_eq!(one_after, Vec2 { x: one.x, y: one.y + PLAYER_SPEED });
    assert_eq!(two_after, Vec2 { x: two.x, y: two.y + PLAYER_SPEED });
}

#[test]
fn both_keys_cancel_out() {
    let mut game = Game::new();
    let before = game.paddle_positions();
    press(&mut game, Key::W);
    press(&mut game, Key::S);
    game.update();
    assert_eq!(game.paddle_positions(), before);
}

#[test]
fn held_key_moves_every_tick_until_released() {
    let mut game = Game::new();
    press(&mut game, Key::W);
    game.update();
    game.update();
    assert!(game.is_held(Key::W));
    release(&mut game, Key::W);
    assert!(!game.is_held(Key::W));
    game.update();
    assert_eq!(game.paddle_positions().0.y, px(200) - 2 * PLAYER_SPEED);
}

#[test]
fn repeated_press_is_one_held_key() {
    let mut game = Game::new();
    press(&mut game, Key::Down);
    press(&mut game, Key::Down);
    release(&mut game, Key::Down);
    assert!(!game.is_held(Key::Down));
    game.update();
    assert_eq!(game.paddle_positions().1.y, px(300));
}

#[test]
fn hold_up_three_ticks() {
    let mut game = Game::new();
    assert_eq!(game.paddle_positions().0.y, px(200));
    assert_eq!(PLAYER_SPEED, px(5));
    press(&mut game, Key::W);
    for _ in 0..3 {
        game.update();
    }
    assert_eq!(game.paddle_positions().0.y, px(185));
}

#[test]
fn ball_crosses_right_bound() {
    let mut game = Game::with_spawn(Vec2 { x: px(50), y: px(50) }, Vec2 { x: px(18), y: 0 }).unwrap();
    for _ in 0..42 {
        game.update();
    }
    let x = game.ball_position().unwrap().x;
    assert_eq!(x, px(806));
    assert!(x >= px(800));
    assert_eq!(game.score(), (0, 0));
    game.check_goal();
    assert_eq!(game.score(), (1, 0));
    assert_eq!(game.ball_position(), Some(Vec2 { x: px(50), y: px(50) }));
    assert_eq!(game.ball_velocity(), Vec2 { x: px(18), y: 0 });
}

#[test]
fn goal_respawns_with_usual_velocity() {
    let mut game = Game::new();
    let mut ticks = 0;
    while game.score() == (0, 0) && ticks < 10_000 {
        game.update();
        ticks += 1;
    }
    assert_ne!(game.score(), (0, 0));
    // The update that scored respawned the ball, then stepped it once.
    assert_eq!(
        game.ball_position(),
        Some(Vec2 { x: px(50) + BALL_HORIZONTAL_SPEED, y: px(50) + BALL_VERTICAL_SPEED })
    );
    assert_eq!(game.ball_velocity(), Vec2 { x: 76, y: 40 });
}

#[test]
fn goal_inside_update_respawns_then_steps() {
    let mut game = Game::with_spawn(Vec2 { x: px(50), y: px(50) }, Vec2 { x: px(18), y: 0 }).unwrap();
    for _ in 0..43 {
        game.update();
    }
    assert_eq!(game.score(), (1, 0));
    assert_eq!(game.ball_position(), Some(Vec2 { x: px(68), y: px(50) }));
}

#[test]
fn ball_past_left_bound_scores_for_player_two() {
    let mut game = Game::with_spawn(Vec2 { x: px(50), y: px(50) }, Vec2 { x: -px(18), y: 0 }).unwrap();
    for _ in 0..3 {
        game.update();
    }
    assert_eq!(game.ball_position().unwrap().x, -px(4));
    game.check_goal();
    assert_eq!(game.score(), (0, 1));
    assert_eq!(game.ball_position(), Some(Vec2 { x: px(50), y: px(50) }));
    assert_eq!(game.ball_velocity(), Vec2 { x: -px(18), y: 0 });
}

#[test]
fn no_goal_inside_bounds() {
    let mut game = Game::new();
    game.check_goal();
    assert_eq!(game.score(), (0, 0));
    assert_eq!(game.ball_position(), Some(Vec2 { x: px(50), y: px(50) }));
}

#[test]
fn goal_bounds() {
    assert_eq!(goal_for(px(800)), None);
    assert_eq!(goal_for(px(800) + 1), Some(Scorer::PlayerOne));
    assert_eq!(goal_for(0), None);
    assert_eq!(goal_for(-1), Some(Scorer::PlayerTwo));
    assert_eq!(goal_for(px(400)), None);
}

#[test]
fn score_holds_at_largest() {
    let mut game = Game::with_spawn(Vec2 { x: px(900), y: px(50) }, Vec2 { x: 0, y: 0 }).unwrap();
    for _ in 0..300 {
        game.check_goal();
    }
    assert_eq!(game.score(), (255, 0));
}

#[test]
fn ball_always_present() {
    let mut game = Game::with_spawn(Vec2 { x: px(790), y: px(50) }, Vec2 { x: px(30), y: 0 }).unwrap();
    for _ in 0..10 {
        assert!(game.ball_position().is_some());
        game.update();
    }
    assert!(game.ball_position().is_some());
    assert!(game.score().0 >= 1);
}

#[test]
fn render_twice_is_identical() {
    let mut game = Game::new();
    game.update();
    let first = game.render();
    let second = game.render();
    assert_eq!(first, second);
    assert_eq!(first.len(), 5);
}

#[test]
fn render_draws_ball_paddles_walls() {
    let game = Game::new();
    let frame = game.render();
    assert_eq!(
        frame,
        vec![
            DrawCommand { primitive: Primitive::Ellipse, x: px(50), y: px(50), width: BALL_SIZE, height: BALL_SIZE },
            DrawCommand { primitive: Primitive::Rectangle, x: px(50), y: px(200), width: PLAYER_WIDTH, height: PLAYER_HEIGHT },
            DrawCommand { primitive: Primitive::Rectangle, x: px(735), y: px(300), width: PLAYER_WIDTH, height: PLAYER_HEIGHT },
            DrawCommand { primitive: Primitive::Rectangle, x: 0, y: 0, width: px(800), height: px(20) },
            DrawCommand { primitive: Primitive::Rectangle, x: 0, y: px(400), width: px(800), height: px(20) },
        ]
    );
    assert_eq!((BALL_SIZE, PLAYER_WIDTH, PLAYER_HEIGHT), (px(20), px(15), px(50)));
}

#[test]
fn ball_bounces_off_top_wall() {
    // The top wall's body spans half a pixel on each side of the top edge.
    let mut game = Game::with_spawn(Vec2 { x: px(300), y: 50 }, Vec2 { x: 240, y: -60 }).unwrap();
    game.update();
    assert_eq!(game.ball_velocity(), Vec2 { x: 240, y: 60 });
    assert_eq!(game.ball_position(), Some(Vec2 { x: px(300) + 240, y: px(1) / 2 }));
}

#[test]
fn ball_bounces_off_paddle_sideways() {
    // Player two's paddle spans x 735..750 and y 300..350, in pixels.
    let mut game = Game::with_spawn(Vec2 { x: px(690), y: px(305) }, Vec2 { x: px(10), y: 0 }).unwrap();
    game.update();
    assert_eq!(game.ball_velocity(), Vec2 { x: -px(10), y: 0 });
    assert_eq!(game.ball_position(), Some(Vec2 { x: px(695), y: px(305) }));
}

#[test]
fn invalid_spawn_is_refused() {
    let far = pong::body::COORD_LIMIT + 1;
    assert_eq!(
        Game::with_spawn(Vec2 { x: far, y: 0 }, Vec2 { x: 0, y: 0 }).err(),
        Some(BodyError::InvalidPosition)
    );
    let fast = pong::body::SPEED_LIMIT + 1;
    assert_eq!(
        Game::with_spawn(Vec2 { x: 0, y: 0 }, Vec2 { x: 0, y: -fast }).err(),
        Some(BodyError::InvalidVelocity)
    );
}
