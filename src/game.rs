//! The game: the registry and everything in it, the scores, and the keys held
//! down. Each tick moves the paddles, checks for a goal, then steps the
//! registry.
use vstd::prelude::*;
use vstd::pervasive::unreached;

use crate::ball::{
    ball_body, ball_command, PongBall, BALL_HORIZONTAL_SPEED, BALL_RESTITUTION, BALL_SIZE,
    BALL_VERTICAL_SPEED,
};
use crate::body::{
    body_error, Body, BodyError, Material, MotionKind, Shape, Vec2, COORD_LIMIT, UNITS_PER_PIXEL,
};
use crate::contact::overlaps_spec;
use crate::draw::DrawCommand;
use crate::input::{Key, KeyEvent, KeySet, KeyState};
use crate::player::{
    paddle_body, paddle_command, paddle_target, PongPlayer, PLAYER_HEIGHT, PLAYER_SPEED,
    PLAYER_WIDTH,
};
use crate::wall::{wall_body, wall_command, Wall, WALL_BODY_HEIGHT, WALL_BODY_LENGTH};
use crate::world::{
    body_of, create_handle, integrated, is_dynamic, lemma_create_keeps, lemma_create_len,
    lemma_create_new, lemma_free_flight,
    lemma_create_reuses, lemma_remove_keeps, live, slots_create, slots_remove, slots_step,
    step_keeps, BodyHandle, Slot, World,
};

verus! {

/// A ball whose position exceeds this, horizontally, has left on the right:
/// 800 pixels.
pub const FIELD_RIGHT: i64 = 800 * UNITS_PER_PIXEL;

/// A ball whose position is below this, horizontally, has left on the left.
pub const FIELD_LEFT: i64 = 0;

pub const BALL_SPAWN_X: i64 = 50 * UNITS_PER_PIXEL;

pub const BALL_SPAWN_Y: i64 = 50 * UNITS_PER_PIXEL;

pub const PLAYER_ONE_X: i64 = 50 * UNITS_PER_PIXEL;

pub const PLAYER_ONE_Y: i64 = 200 * UNITS_PER_PIXEL;

pub const PLAYER_TWO_X: i64 = 735 * UNITS_PER_PIXEL;

pub const PLAYER_TWO_Y: i64 = 300 * UNITS_PER_PIXEL;

/// The top edge of the playfield.
pub const TOP_WALL_Y: i64 = 0;

/// The bottom edge of the playfield: 400 pixels down.
pub const BOTTOM_WALL_Y: i64 = 400 * UNITS_PER_PIXEL;

/// The player who scores a goal.
#[derive(Clone, Copy, Debug, PartialEq, Eq, Structural)]
pub enum Scorer {
    PlayerOne,
    PlayerTwo,
}

/// Who scores when the ball stands at horizontal position `x`: player one when
/// it is past the right bound, player two when it is past the left one.
pub open spec fn goal_spec(x: int) -> Option<Scorer> {
    if x > FIELD_RIGHT {
        Some(Scorer::PlayerOne)
    } else if x < FIELD_LEFT {
        Some(Scorer::PlayerTwo)
    } else {
        None
    }
}

/// A score after a goal of its player: one more, held at the largest `u8`.
pub open spec fn bumped(s: u8) -> u8 {
    if s < u8::MAX {
        (s + 1) as u8
    } else {
        s
    }
}

/// The scores of players one and two after a check that found `goal`.
pub open spec fn scores_after(scores: (u8, u8), goal: Option<Scorer>) -> (u8, u8) {
    match goal {
        Some(Scorer::PlayerOne) => (bumped(scores.0), scores.1),
        Some(Scorer::PlayerTwo) => (scores.0, bumped(scores.1)),
        None => scores,
    }
}

/// Who scores, if anyone, with the ball at horizontal position `x`.
pub fn goal_for(x: i64) -> (r: Option<Scorer>)
    ensures
        r == goal_spec(x as int),
{
    if x > FIELD_RIGHT {
        Some(Scorer::PlayerOne)
    } else if x < FIELD_LEFT {
        Some(Scorer::PlayerTwo)
    } else {
        None
    }
}

fn bump(s: u8) -> (r: u8)
    ensures
        r == bumped(s),
{
    if s < u8::MAX {
        s + 1
    } else {
        s
    }
}

pub open spec fn is_ball(b: Body) -> bool {
    &&& b.kind == MotionKind::Dynamic
    &&& b.shape == Shape::Circle { radius: BALL_SIZE }
    &&& b.material == Material { restitution: BALL_RESTITUTION, friction: 0 }
}

pub open spec fn is_paddle(b: Body) -> bool {
    &&& b.kind == MotionKind::Kinematic
    &&& b.shape == Shape::Rect { width: PLAYER_WIDTH, height: PLAYER_HEIGHT }
    &&& b.material == Material { restitution: 0, friction: 0 }
}

pub open spec fn is_wall(b: Body) -> bool {
    &&& b.kind == MotionKind::Static
    &&& b.shape == Shape::Rect { width: WALL_BODY_LENGTH, height: WALL_BODY_HEIGHT }
    &&& b.material == Material { restitution: 0, friction: 0 }
}

pub open spec fn distinct5(
    a: BodyHandle,
    b: BodyHandle,
    c: BodyHandle,
    d: BodyHandle,
    e: BodyHandle,
) -> bool {
    &&& a != b && a != c && a != d && a != e
    &&& b != c && b != d && b != e
    &&& c != d && c != e
    &&& d != e
}

pub struct Game {
    world: World,
    ball: PongBall,
    player_one: PongPlayer,
    player_two: PongPlayer,
    top_wall: Wall,
    bottom_wall: Wall,
    player_one_score: u8,
    player_two_score: u8,
    keys_pressed: KeySet,
    spawn_position: Vec2,
    spawn_velocity: Vec2,
}

impl Game {
    /// The bodies table of the registry.
    pub closed spec fn table(&self) -> Seq<Slot> {
        self.world@
    }

    pub closed spec fn ball_handle(&self) -> BodyHandle {
        self.ball.body
    }

    /// Body handle, up key and down key of player one's paddle.
    pub closed spec fn player_one_spec(&self) -> (BodyHandle, Key, Key) {
        (self.player_one.body, self.player_one.up_key, self.player_one.down_key)
    }

    /// Body handle, up key and down key of player two's paddle.
    pub closed spec fn player_two_spec(&self) -> (BodyHandle, Key, Key) {
        (self.player_two.body, self.player_two.up_key, self.player_two.down_key)
    }

    /// Handles of the top and the bottom wall.
    pub closed spec fn walls(&self) -> (BodyHandle, BodyHandle) {
        (self.top_wall.body, self.bottom_wall.body)
    }

    /// Scores of players one and two.
    pub closed spec fn scores(&self) -> (u8, u8) {
        (self.player_one_score, self.player_two_score)
    }

    pub closed spec fn held(&self) -> Set<Key> {
        self.keys_pressed@
    }

    /// Position and velocity of every ball this game spawns.
    pub closed spec fn spawn(&self) -> (Vec2, Vec2) {
        (self.spawn_position, self.spawn_velocity)
    }

    /// Every entity's body is in the registry with the kind and shape of its
    /// entity, no two entities share a body, and the spawn point and velocity
    /// make a valid ball.
    pub closed spec fn wf(&self) -> bool {
        let w = self.world@;
        &&& self.world.wf()
        &&& w.len() <= 5
        &&& live(w, self.ball.body) && is_ball(body_of(w, self.ball.body))
        &&& live(w, self.player_one.body) && is_paddle(body_of(w, self.player_one.body))
        &&& live(w, self.player_two.body) && is_paddle(body_of(w, self.player_two.body))
        &&& live(w, self.top_wall.body) && is_wall(body_of(w, self.top_wall.body))
        &&& live(w, self.bottom_wall.body) && is_wall(body_of(w, self.bottom_wall.body))
        &&& distinct5(
            self.ball.body,
            self.player_one.body,
            self.player_two.body,
            self.top_wall.body,
            self.bottom_wall.body,
        )
        &&& forall|k: int|
            0 <= k < w.len() && (#[trigger] w[k]).body is Some ==> k == self.ball.body.index
                || k == self.player_one.body.index || k == self.player_two.body.index || k
                == self.top_wall.body.index || k == self.bottom_wall.body.index
        &&& self.top_wall.edge_y == TOP_WALL_Y
        &&& self.bottom_wall.edge_y == BOTTOM_WALL_Y
        &&& ball_body(self.spawn_position, self.spawn_velocity).valid()
    }

    pub open spec fn ball_now(&self) -> Body {
        body_of(self.table(), self.ball_handle())
    }

    pub open spec fn player_one_position(&self) -> Vec2 {
        body_of(self.table(), self.player_one_spec().0).position
    }

    pub open spec fn player_two_position(&self) -> Vec2 {
        body_of(self.table(), self.player_two_spec().0).position
    }

    /// The paddle of player one after one tick of the held keys.
    pub open spec fn player_one_target(&self) -> Vec2 {
        paddle_target(
            self.player_one_position(),
            self.held().contains(self.player_one_spec().1),
            self.held().contains(self.player_one_spec().2),
        )
    }

    /// The paddle of player two after one tick of the held keys.
    pub open spec fn player_two_target(&self) -> Vec2 {
        paddle_target(
            self.player_two_position(),
            self.held().contains(self.player_two_spec().1),
            self.held().contains(self.player_two_spec().2),
        )
    }

    /// `s` with the ball's body removed and a fresh ball created at the spawn point.
    pub open spec fn respawned(&self, s: Seq<Slot>) -> Seq<Slot> {
        slots_create(slots_remove(s, self.ball_handle()), ball_body(self.spawn().0, self.spawn().1))
    }

    /// Handle of the ball that `respawned(s)` creates.
    pub open spec fn respawn_handle(&self, s: Seq<Slot>) -> BodyHandle {
        create_handle(slots_remove(s, self.ball_handle()))
    }

    /// Everything that stays as it is over a goal check or a tick.
    pub open spec fn same_setup(&self, next: &Game) -> bool {
        &&& next.player_one_spec() == self.player_one_spec()
        &&& next.player_two_spec() == self.player_two_spec()
        &&& next.walls() == self.walls()
        &&& next.held() == self.held()
        &&& next.spawn() == self.spawn()
    }

    /// `next` is this game after a goal check on the table `s`, with the
    /// ball's horizontal position at the check being `x`.
    pub open spec fn goal_checked_on(&self, s: Seq<Slot>, x: int, next: &Game) -> bool {
        let goal = goal_spec(x);
        &&& self.same_setup(next)
        &&& next.scores() == scores_after(self.scores(), goal)
        &&& next.table() == (if goal is Some {
            self.respawned(s)
        } else {
            s
        })
        &&& next.ball_handle() == (if goal is Some {
            self.respawn_handle(s)
        } else {
            self.ball_handle()
        })
    }

    /// `next` is this game after one goal check.
    pub open spec fn goal_checked(&self, next: &Game) -> bool {
        self.goal_checked_on(self.table(), self.ball_now().position.x as int, next)
    }

    /// The table after the paddles moved.
    pub open spec fn after_paddles(&self) -> Seq<Slot> {
        let p1 = self.player_one_spec();
        let p2 = self.player_two_spec();
        let s1 = PongPlayer { body: p1.0, up_key: p1.1, down_key: p1.2 }.slots_after_update(
            self.table(),
            self.held(),
        );
        PongPlayer { body: p2.0, up_key: p2.1, down_key: p2.2 }.slots_after_update(s1, self.held())
    }

    /// The table after the paddles moved and the goal check, just before the
    /// registry steps.
    pub open spec fn before_step(&self) -> Seq<Slot> {
        if goal_spec(self.ball_now().position.x as int) is Some {
            self.respawned(self.after_paddles())
        } else {
            self.after_paddles()
        }
    }

    /// `next` is this game one tick later: the paddles moved by the held
    /// keys, a goal, if the ball was out, scored and respawned the ball, and
    /// the registry stepped once.
    pub open spec fn ticked(&self, next: &Game) -> bool {
        let goal = goal_spec(self.ball_now().position.x as int);
        &&& self.same_setup(next)
        &&& next.scores() == scores_after(self.scores(), goal)
        &&& next.table() == slots_step(self.before_step())
        &&& next.ball_handle() == (if goal is Some {
            self.respawn_handle(self.after_paddles())
        } else {
            self.ball_handle()
        })
        &&& next.player_one_position() == self.player_one_target()
        &&& next.player_two_position() == self.player_two_target()
    }

    /// This game is new, with its ball spawning at `position` with `velocity`:
    /// no score, no key held, the ball at its spawn point, player one's
    /// paddle on W and S and player two's on Up and Down at their starting
    /// points, and the walls on the top and the bottom edge.
    pub open spec fn fresh(&self, position: Vec2, velocity: Vec2) -> bool {
        let t = self.table();
        &&& ball_body(position, velocity).valid()
        &&& self.spawn() == (position, velocity)
        &&& self.scores() == (0u8, 0u8)
        &&& self.held() == Set::<Key>::empty()
        &&& self.entities_in_place()
        &&& self.ball_now() == ball_body(position, velocity)
        &&& body_of(t, self.player_one_spec().0) == paddle_body(
            Vec2 { x: PLAYER_ONE_X, y: PLAYER_ONE_Y },
        )
        &&& body_of(t, self.player_two_spec().0) == paddle_body(
            Vec2 { x: PLAYER_TWO_X, y: PLAYER_TWO_Y },
        )
        &&& self.player_one_spec().1 == Key::W && self.player_one_spec().2 == Key::S
        &&& self.player_two_spec().1 == Key::Up && self.player_two_spec().2 == Key::Down
        &&& body_of(t, self.walls().0) == wall_body(TOP_WALL_Y)
        &&& body_of(t, self.walls().1) == wall_body(BOTTOM_WALL_Y)
    }

    /// Every entity's body is in the registry, with the kind, shape and
    /// material of its entity, and no two entities share a body.
    pub open spec fn entities_in_place(&self) -> bool {
        let t = self.table();
        &&& live(t, self.ball_handle()) && is_ball(body_of(t, self.ball_handle()))
        &&& live(t, self.player_one_spec().0) && is_paddle(body_of(t, self.player_one_spec().0))
        &&& live(t, self.player_two_spec().0) && is_paddle(body_of(t, self.player_two_spec().0))
        &&& live(t, self.walls().0) && is_wall(body_of(t, self.walls().0))
        &&& live(t, self.walls().1) && is_wall(body_of(t, self.walls().1))
        &&& distinct5(
            self.ball_handle(),
            self.player_one_spec().0,
            self.player_two_spec().0,
            self.walls().0,
            self.walls().1,
        )
    }

    /// What a renderer draws for this game: the ball, the paddles of players
    /// one and two, then the top and the bottom wall.
    pub open spec fn frame(&self) -> Seq<DrawCommand> {
        seq![
            ball_command(self.ball_now().position),
            paddle_command(self.player_one_position()),
            paddle_command(self.player_two_position()),
            wall_command(TOP_WALL_Y),
            wall_command(BOTTOM_WALL_Y),
        ]
    }
}

impl Game {
    /// A game whose ball spawns at `position` with `velocity`, every time;
    /// refuses a spawn beyond the limits of the simulation.
    pub fn with_spawn(position: Vec2, velocity: Vec2) -> (r: Result<Game, BodyError>)
        ensures
            match r {
                Ok(g) => g.wf() && g.fresh(position, velocity),
                Err(e) => body_error(ball_body(position, velocity)) == Some(e),
            },
    {
        let mut world = World::new();
        let ball = match PongBall::new(&mut world, position, velocity) {
            Ok(b) => b,
            Err(e) => {
                return Err(e);
            },
        };
        let ghost w1 = world@;
        let player_one = match PongPlayer::new(
            &mut world,
            Vec2 { x: PLAYER_ONE_X, y: PLAYER_ONE_Y },
            Key::W,
            Key::S,
        ) {
            Ok(p) => p,
            Err(_) => unreached(),
        };
        proof {
            lemma_create_len(w1, paddle_body(Vec2 { x: PLAYER_ONE_X, y: PLAYER_ONE_Y }));
        }
        let ghost w2 = world@;
        let player_two = match PongPlayer::new(
            &mut world,
            Vec2 { x: PLAYER_TWO_X, y: PLAYER_TWO_Y },
            Key::Up,
            Key::Down,
        ) {
            Ok(p) => p,
            Err(_) => unreached(),
        };
        proof {
            lemma_create_len(w2, paddle_body(Vec2 { x: PLAYER_TWO_X, y: PLAYER_TWO_Y }));
        }
        let ghost w3 = world@;
        let top_wall = match Wall::new(&mut world, TOP_WALL_Y) {
            Ok(w) => w,
            Err(_) => unreached(),
        };
        proof {
            lemma_create_len(w3, wall_body(TOP_WALL_Y));
        }
        let ghost w4 = world@;
        let bottom_wall = match Wall::new(&mut world, BOTTOM_WALL_Y) {
            Ok(w) => w,
            Err(_) => unreached(),
        };
        proof {
            lemma_create_len(w4, wall_body(BOTTOM_WALL_Y));
        }
        assert(world@.len() <= 5);
        Ok(
            Game {
                world,
                ball,
                player_one,
                player_two,
                top_wall,
                bottom_wall,
                player_one_score: 0,
                player_two_score: 0,
                keys_pressed: KeySet::new(),
                spawn_position: position,
                spawn_velocity: velocity,
            },
        )
    }

    /// A game with the ball at its usual spawn point and velocity.
    pub fn new() -> (r: Game)
        ensures
            r.wf(),
            r.fresh(
                Vec2 { x: BALL_SPAWN_X, y: BALL_SPAWN_Y },
                Vec2 { x: BALL_HORIZONTAL_SPEED, y: BALL_VERTICAL_SPEED },
            ),
    {
        match Game::with_spawn(
            Vec2 { x: BALL_SPAWN_X, y: BALL_SPAWN_Y },
            Vec2 { x: BALL_HORIZONTAL_SPEED, y: BALL_VERTICAL_SPEED },
        ) {
            Ok(g) => g,
            Err(_) => unreached(),
        }
    }

    /// Folds a key event into the set of held keys: a press adds the key, a
    /// release takes it out. Keys that no paddle answers are kept too.
    pub fn handle_keyboard_event(&mut self, event: KeyEvent)
        requires
            old(self).wf(),
        ensures
            final(self).wf(),
            final(self).held() == (match event.state {
                KeyState::Press => old(self).held().insert(event.key),
                KeyState::Release => old(self).held().remove(event.key),
            }),
            final(self).table() == old(self).table(),
            final(self).ball_handle() == old(self).ball_handle(),
            final(self).scores() == old(self).scores(),
            final(self).player_one_spec() == old(self).player_one_spec(),
            final(self).player_two_spec() == old(self).player_two_spec(),
            final(self).walls() == old(self).walls(),
            final(self).spawn() == old(self).spawn(),
    {
        match event.state {
            KeyState::Press => self.keys_pressed.insert(event.key),
            KeyState::Release => self.keys_pressed.remove(event.key),
        }
    }

    /// Replaces the ball by a fresh one at the spawn point, with the spawn velocity.
    fn reset_ball(&mut self)
        requires
            old(self).wf(),
        ensures
            final(self).wf(),
            final(self).table() == old(self).respawned(old(self).table()),
            final(self).ball_handle() == old(self).respawn_handle(old(self).table()),
            final(self).ball_now() == ball_body(old(self).spawn().0, old(self).spawn().1),
            old(self).same_setup(final(self)),
            final(self).scores() == old(self).scores(),
    {
        self.world.remove(self.ball.body);
        proof {
            lemma_create_reuses(
                self.world@,
                ball_body(self.spawn_position, self.spawn_velocity),
                self.ball.body.index as int,
            );
        }
        self.ball = match PongBall::new(&mut self.world, self.spawn_position, self.spawn_velocity) {
            Ok(b) => b,
            Err(_) => unreached(),
        };
    }

    /// Scores a goal if the ball is out on either side, and then respawns
    /// the ball; does nothing while the ball is inside the bounds.
    pub fn check_goal(&mut self)
        requires
            old(self).wf(),
        ensures
            final(self).wf(),
            old(self).goal_checked(final(self)),
    {
        if let Some(p) = self.ball.get_position(&self.world) {
            match goal_for(p.x) {
                Some(Scorer::PlayerOne) => {
                    self.player_one_score = bump(self.player_one_score);
                    self.reset_ball();
                },
                Some(Scorer::PlayerTwo) => {
                    self.player_two_score = bump(self.player_two_score);
                    self.reset_ball();
                },
                None => {},
            }
        }
    }

    /// One tick: the paddles answer the held keys, the goal check runs, then
    /// the registry steps once.
    pub fn update(&mut self)
        requires
            old(self).wf(),
        ensures
            final(self).wf(),
            old(self).ticked(final(self)),
    {
        let ghost g0 = *self;
        self.player_one.update(&mut self.world, &self.keys_pressed);
        self.player_two.update(&mut self.world, &self.keys_pressed);
        let ghost g1 = *self;
        assert(g1.player_one_position() == g0.player_one_target());
        assert(g1.player_two_position() == g0.player_two_target());
        self.check_goal();
        let ghost g2 = *self;
        proof {
            // A respawn leaves the paddles where they are.
            if goal_spec(g1.ball_now().position.x as int) is Some {
                let s = slots_remove(g1.table(), g1.ball_handle());
                let b = ball_body(g1.spawn().0, g1.spawn().1);
                lemma_remove_keeps(g1.table(), g1.ball_handle(), g1.player_one_spec().0);
                lemma_remove_keeps(g1.table(), g1.ball_handle(), g1.player_two_spec().0);
                lemma_create_keeps(s, b, g1.player_one_spec().0);
                lemma_create_keeps(s, b, g1.player_two_spec().0);
            }
        }
        self.world.step();
        proof {
            // The paddles are kinematic, so the step leaves them where they are.
            let one = g2.player_one_spec().0.index as int;
            let two = g2.player_two_spec().0.index as int;
            assert(step_keeps(g2.table()[one], self.table()[one]));
            assert(step_keeps(g2.table()[two], self.table()[two]));
        }
    }

    /// The draw commands of the current state; see `frame`.
    pub fn render(&self) -> (r: Vec<DrawCommand>)
        requires
            self.wf(),
        ensures
            r@ == self.frame(),
    {
        let mut out: Vec<DrawCommand> = Vec::new();
        if let Some(c) = self.ball.render(&self.world) {
            out.push(c);
        }
        if let Some(c) = self.player_one.render(&self.world) {
            out.push(c);
        }
        if let Some(c) = self.player_two.render(&self.world) {
            out.push(c);
        }
        out.push(self.top_wall.render());
        out.push(self.bottom_wall.render());
        assert(out@ =~= self.frame());
        out
    }
}

impl Game {
    /// Scores of players one and two.
    pub fn score(&self) -> (r: (u8, u8))
        ensures
            r == self.scores(),
    {
        (self.player_one_score, self.player_two_score)
    }

    /// Where the ball is; there is always a ball.
    pub fn ball_position(&self) -> (r: Option<Vec2>)
        requires
            self.wf(),
        ensures
            r == Some(self.ball_now().position),
    {
        self.ball.get_position(&self.world)
    }

    /// The ball's velocity.
    pub fn ball_velocity(&self) -> (r: Vec2)
        requires
            self.wf(),
        ensures
            r == self.ball_now().velocity,
    {
        match self.world.get(self.ball.body) {
            Some(b) => b.velocity,
            None => unreached(),
        }
    }

    /// Where the paddles of players one and two are.
    pub fn paddle_positions(&self) -> (r: (Vec2, Vec2))
        requires
            self.wf(),
        ensures
            r == (self.player_one_position(), self.player_two_position()),
    {
        let one = match self.world.get(self.player_one.body) {
            Some(b) => b.position,
            None => unreached(),
        };
        let two = match self.world.get(self.player_two.body) {
            Some(b) => b.position,
            None => unreached(),
        };
        (one, two)
    }

    /// Whether `key` is held down.
    pub fn is_held(&self, key: Key) -> (r: bool)
        ensures
            r == self.held().contains(key),
    {
        self.keys_pressed.contains(key)
    }

    /// Every game has a ball in its registry.
    pub proof fn lemma_ball_present(g: &Game)
        requires
            g.wf(),
        ensures
            live(g.table(), g.ball_handle()),
    {
    }

    /// In every game, each entity's body is in the registry with the kind,
    /// shape and material of its entity, and no two entities share a body.
    pub proof fn lemma_entities_in_place(g: &Game)
        requires
            g.wf(),
        ensures
            g.entities_in_place(),
    {
    }

    /// A paddle whose keys are both released stays where it is over a tick.
    pub proof fn lemma_idle_paddle_stays(before: &Game, after: &Game)
        requires
            before.wf(),
            before.ticked(after),
        ensures
            !before.held().contains(before.player_one_spec().1) && !before.held().contains(
                before.player_one_spec().2,
            ) ==> after.player_one_position() == before.player_one_position(),
            !before.held().contains(before.player_two_spec().1) && !before.held().contains(
                before.player_two_spec().2,
            ) ==> after.player_two_position() == before.player_two_position(),
    {
        let t = before.table();
        assert(t[before.player_one_spec().0.index as int].body is Some);
        assert(t[before.player_two_spec().0.index as int].body is Some);
    }

    /// Over a tick, a paddle whose up key alone is held rises by exactly
    /// `PLAYER_SPEED`, one whose down key alone is held sinks by exactly
    /// `PLAYER_SPEED`, and one whose keys are both held stays where it is;
    /// paddles never move sideways. This holds away from the edge of the
    /// playable space, where positions are held.
    pub proof fn lemma_held_keys_move_paddle(before: &Game, after: &Game)
        requires
            before.ticked(after),
            -COORD_LIMIT + PLAYER_SPEED <= before.player_one_position().y <= COORD_LIMIT
                - PLAYER_SPEED,
            -COORD_LIMIT + PLAYER_SPEED <= before.player_two_position().y <= COORD_LIMIT
                - PLAYER_SPEED,
        ensures
            paddle_moved_by(
                before.player_one_position(),
                after.player_one_position(),
                before.held().contains(before.player_one_spec().1),
                before.held().contains(before.player_one_spec().2),
            ),
            paddle_moved_by(
                before.player_two_position(),
                after.player_two_position(),
                before.held().contains(before.player_two_spec().1),
                before.held().contains(before.player_two_spec().2),
            ),
    {
    }

    /// Over a tick with no goal in which the ball, moved by its velocity,
    /// touches neither paddle nor wall, the ball moves by its velocity alone.
    pub proof fn lemma_ball_flies_free(before: &Game, after: &Game)
        requires
            before.wf(),
            before.ticked(after),
            goal_spec(before.ball_now().position.x as int) is None,
            !overlaps_spec(
                integrated(before.ball_now()),
                body_of(before.after_paddles(), before.player_one_spec().0),
            ),
            !overlaps_spec(
                integrated(before.ball_now()),
                body_of(before.after_paddles(), before.player_two_spec().0),
            ),
            !overlaps_spec(
                integrated(before.ball_now()),
                body_of(before.table(), before.walls().0),
            ),
            !overlaps_spec(
                integrated(before.ball_now()),
                body_of(before.table(), before.walls().1),
            ),
        ensures
            after.ball_handle() == before.ball_handle(),
            after.ball_now() == integrated(before.ball_now()),
    {
        let t = before.table();
        let s = before.after_paddles();
        let b = before.ball.body.index as int;
        let one = before.player_one.body.index as int;
        let two = before.player_two.body.index as int;
        let top = before.top_wall.body.index as int;
        let bottom = before.bottom_wall.body.index as int;
        assert(t[b].body is Some);
        assert(t[one].body is Some);
        assert(t[two].body is Some);
        assert(t[top].body is Some);
        assert(t[bottom].body is Some);
        assert forall|k: int| 0 <= k < s.len() && k != b implies !is_dynamic(#[trigger] s[k]) && (
        s[k].body is Some ==> !overlaps_spec(integrated(s[b].body->0), s[k].body->0)) by {
            if s[k].body is Some {
                assert(t[k].body is Some);
            }
        }
        lemma_free_flight(s, b);
    }

    /// After a goal the ball is a fresh one, at the spawn point and with the
    /// spawn velocity.
    pub proof fn lemma_goal_respawns_ball(before: &Game, after: &Game)
        requires
            before.wf(),
            before.goal_checked(after),
            goal_spec(before.ball_now().position.x as int) is Some,
        ensures
            live(after.table(), after.ball_handle()),
            after.ball_now().position == before.spawn().0,
            after.ball_now().velocity == before.spawn().1,
    {
        lemma_create_new(
            slots_remove(before.table(), before.ball_handle()),
            ball_body(before.spawn().0, before.spawn().1),
        );
    }

    /// A goal check raises player one's score exactly when the ball is past
    /// the right bound, and player two's exactly when it is past the left
    /// bound; never both. This holds while neither score is at its largest.
    pub proof fn lemma_goal_scores(before: &Game, after: &Game)
        requires
            before.goal_checked(after),
            before.scores().0 < u8::MAX,
            before.scores().1 < u8::MAX,
        ensures
            after.scores().0 == before.scores().0 + 1 <==> before.ball_now().position.x
                > FIELD_RIGHT,
            after.scores().0 != before.scores().0 + 1 ==> after.scores().0 == before.scores().0,
            after.scores().1 == before.scores().1 + 1 <==> before.ball_now().position.x
                < FIELD_LEFT,
            after.scores().1 != before.scores().1 + 1 ==> after.scores().1 == before.scores().1,
            !(after.scores().0 == before.scores().0 + 1 && after.scores().1 == before.scores().1
                + 1),
    {
    }

    /// Rendering depends on the game's state alone: two renders with no
    /// change in between give the same commands.
    pub proof fn lemma_render_repeatable(
        g: &Game,
        first: Seq<DrawCommand>,
        second: Seq<DrawCommand>,
    )
        requires
            first == g.frame(),
            second == g.frame(),
        ensures
            first == second,
    {
    }
}

/// A paddle went from `p` to `q` as its held keys say: up alone raises it by
/// `PLAYER_SPEED`, down alone lowers it by `PLAYER_SPEED`, neither or both
/// leave it, and it never moves sideways.
pub open spec fn paddle_moved_by(p: Vec2, q: Vec2, up: bool, down: bool) -> bool {
    &&& q.x == p.x
    &&& up && !down ==> q.y == p.y - PLAYER_SPEED
    &&& down && !up ==> q.y == p.y + PLAYER_SPEED
    &&& up == down ==> q.y == p.y
}

} // verus!
