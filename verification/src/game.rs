use vstd::prelude::*;

use crate::entity::{Entity, Rotation, Vec2, COORD_LIMIT};

verus! {

/// Window width, in half-units: the window is 640 screen units wide.
pub const WINDOW_WIDTH: i64 = 1280;

/// Window height, in half-units: the window is 480 screen units tall.
pub const WINDOW_HEIGHT: i64 = 960;

/// Displacement a held key gives a paddle in one frame: 8 screen units,
/// in half-units.
pub const PADDLE_SPEED: i64 = 16;

/// The ball's initial leftward speed: 5 screen units per frame, in
/// half-units.
pub const BALL_SPEED: i64 = 10;

/// Horizontal anchor of the left paddle: 20 screen units, in half-units.
pub const PLAYER1_X: i64 = 40;

/// Horizontal anchor of the right paddle: 620 screen units, in
/// half-units.
pub const PLAYER2_X: i64 = 1240;

/// The pressed-state of the four keys the game reads each frame.
#[derive(Clone, Copy, Debug, PartialEq, Eq, Structural)]
pub struct KeyInput {
    /// Moves the left paddle up.
    pub w: bool,
    /// Moves the left paddle down.
    pub s: bool,
    /// Moves the right paddle up.
    pub up: bool,
    /// Moves the right paddle down.
    pub down: bool,
}

impl KeyInput {
    pub fn new(w: bool, s: bool, up: bool, down: bool) -> (k: KeyInput)
        ensures
            k == (KeyInput { w, s, up, down }),
    {
        KeyInput { w, s, up, down }
    }

    /// No key held.
    pub fn none() -> (k: KeyInput)
        ensures
            k == (KeyInput { w: false, s: false, up: false, down: false }),
    {
        KeyInput { w: false, s: false, up: false, down: false }
    }
}

/// Where a paddle's anchor ends up after one frame of input: each held
/// key adds or subtracts `PADDLE_SPEED`, with no clamping against the
/// window edges.
pub open spec fn spec_moved_y(y: int, up_held: bool, down_held: bool) -> int {
    y - (if up_held {
        PADDLE_SPEED as int
    } else {
        0
    }) + (if down_held {
        PADDLE_SPEED as int
    } else {
        0
    })
}

/// A paddle after one frame of input: only the vertical coordinate moves.
pub open spec fn spec_moved_paddle(p: Entity, up_held: bool, down_held: bool) -> Entity {
    Entity {
        location: Vec2 { x: p.location.x, y: spec_moved_y(p.location.y as int, up_held, down_held) as i64 },
        ..p
    }
}

/// The whole game at one instant: two paddles and a ball.
#[derive(Clone, Copy, Debug, PartialEq, Eq, Structural)]
pub struct GameState {
    pub player1: Entity,
    pub player2: Entity,
    pub ball: Entity,
}

impl GameState {
    /// Every coordinate of the state, and the ball's velocity, within
    /// `COORD_LIMIT`, so that one frame of arithmetic stays in range.
    pub open spec fn in_range(self) -> bool {
        &&& self.player1.location.in_range()
        &&& self.player2.location.in_range()
        &&& self.ball.location.in_range()
        &&& self.ball.velocity.in_range()
    }

    /// One frame of the game, given the state `s` and the keys held.
    /// Paddles move first; the ball's velocity is negated once for each
    /// paddle whose box overlaps the ball's anchor, so two overlaps in
    /// the same frame cancel; then the ball moves by the resulting
    /// velocity. Nothing corrects an overlap, so a ball left inside a
    /// paddle's box reflects again next frame.
    pub open spec fn spec_update(s: GameState, input: KeyInput) -> GameState {
        let p1 = spec_moved_paddle(s.player1, input.w, input.s);
        let p2 = spec_moved_paddle(s.player2, input.up, input.down);
        let hit1 = p1.spec_intersects_with(s.ball.spec_bounds());
        let hit2 = p2.spec_intersects_with(s.ball.spec_bounds());
        let vx = if hit1 != hit2 {
            -s.ball.velocity.x
        } else {
            s.ball.velocity.x as int
        };
        let vy = if hit1 != hit2 {
            -s.ball.velocity.y
        } else {
            s.ball.velocity.y as int
        };
        GameState {
            player1: p1,
            player2: p2,
            ball: Entity {
                location: Vec2 {
                    x: (s.ball.location.x + vx) as i64,
                    y: (s.ball.location.y + vy) as i64,
                },
                velocity: Vec2 { x: vx as i64, y: vy as i64 },
                ..s.ball
            },
        }
    }

    /// The initial configuration: paddles at the left and right edges,
    /// the ball in the middle of the window moving left. The caller
    /// supplies the native sizes of the three images.
    pub fn new(
        player1_texture_width: u32,
        player1_texture_height: u32,
        player2_texture_width: u32,
        player2_texture_height: u32,
        ball_texture_width: u32,
        ball_texture_height: u32,
    ) -> (s: GameState)
        ensures
            s.player1 == (Entity {
                texture_width: player1_texture_width,
                texture_height: player1_texture_height,
                location: Vec2 { x: PLAYER1_X, y: (WINDOW_HEIGHT / 2) as i64 },
                velocity: Vec2 { x: 0, y: 0 },
                rotation_type: Rotation::Default,
            }),
            s.player2 == (Entity {
                texture_width: player2_texture_width,
                texture_height: player2_texture_height,
                location: Vec2 { x: PLAYER2_X, y: (WINDOW_HEIGHT / 2) as i64 },
                velocity: Vec2 { x: 0, y: 0 },
                rotation_type: Rotation::Default,
            }),
            s.ball == (Entity {
                texture_width: ball_texture_width,
                texture_height: ball_texture_height,
                location: Vec2 { x: (WINDOW_WIDTH / 2) as i64, y: (WINDOW_HEIGHT / 2) as i64 },
                velocity: Vec2 { x: (-BALL_SPEED) as i64, y: 0 },
                rotation_type: Rotation::Default,
            }),
    {
        let paddle_y: i64 = WINDOW_HEIGHT / 2;
        let paddle_position1 = Vec2::new(PLAYER1_X, paddle_y);
        let paddle_position2 = Vec2::new(PLAYER2_X, paddle_y);
        let ball_position = Vec2::new(WINDOW_WIDTH / 2, paddle_y);
        let ball_velocity = Vec2::new(-BALL_SPEED, 0);
        GameState {
            player1: Entity::new(
                player1_texture_width,
                player1_texture_height,
                paddle_position1,
                Rotation::Default,
            ),
            player2: Entity::new(
                player2_texture_width,
                player2_texture_height,
                paddle_position2,
                Rotation::Default,
            ),
            ball: Entity::new_with_velocity(
                ball_texture_width,
                ball_texture_height,
                ball_position,
                Rotation::Default,
                ball_velocity,
            ),
        }
    }

    /// Does either paddle's box overlap the ball under the center-offset
    /// test?
    pub open spec fn spec_hit_any(self) -> bool {
        ||| self.player1.spec_intersects_with(self.ball.spec_bounds())
        ||| self.player2.spec_intersects_with(self.ball.spec_bounds())
    }

    /// The state after `n` frames in which no key is held.
    pub open spec fn spec_run_free(s: GameState, n: nat) -> GameState
        decreases n,
    {
        if n == 0 {
            s
        } else {
            GameState::spec_update(
                GameState::spec_run_free(s, (n - 1) as nat),
                KeyInput { w: false, s: false, up: false, down: false },
            )
        }
    }

    /// One frame of the game, in place: exactly the transition that
    /// `spec_update` describes.
    pub fn update(&mut self, input: KeyInput)
        requires
            old(self).in_range(),
        ensures
            *final(self) == GameState::spec_update(*old(self), input),
    {
        if input.w {
            self.player1.location.y = self.player1.location.y - PADDLE_SPEED;
        }
        if input.s {
            self.player1.location.y = self.player1.location.y + PADDLE_SPEED;
        }
        if input.up {
            self.player2.location.y = self.player2.location.y - PADDLE_SPEED;
        }
        if input.down {
            self.player2.location.y = self.player2.location.y + PADDLE_SPEED;
        }

        if self.player1.intersects_with_object(&self.ball) {
            self.ball.velocity = self.ball.velocity.neg();
        }
        if self.player2.intersects_with_object(&self.ball) {
            self.ball.velocity = self.ball.velocity.neg();
        }

        self.ball.location.x = self.ball.location.x + self.ball.velocity.x;
        self.ball.location.y = self.ball.location.y + self.ball.velocity.y;
    }
}

/// Uniform motion: over any stretch of frames in which no key is held
/// and neither paddle's box ever overlaps the ball, the paddles stay
/// put, the ball keeps its velocity, and its location advances by the
/// velocity once per frame.
pub proof fn lemma_free_flight(s: GameState, n: nat)
    requires
        s.ball.velocity.in_range(),
        forall|i: int|
            0 <= i <= n ==> -COORD_LIMIT <= s.ball.location.x + #[trigger] (i * s.ball.velocity.x)
                <= COORD_LIMIT,
        forall|i: int|
            0 <= i <= n ==> -COORD_LIMIT <= s.ball.location.y + #[trigger] (i * s.ball.velocity.y)
                <= COORD_LIMIT,
        forall|i: nat| i < n ==> !(#[trigger] GameState::spec_run_free(s, i)).spec_hit_any(),
    ensures
        GameState::spec_run_free(s, n).player1 == s.player1,
        GameState::spec_run_free(s, n).player2 == s.player2,
        GameState::spec_run_free(s, n).ball.velocity == s.ball.velocity,
        GameState::spec_run_free(s, n).ball.location.x == s.ball.location.x + n
            * s.ball.velocity.x,
        GameState::spec_run_free(s, n).ball.location.y == s.ball.location.y + n
            * s.ball.velocity.y,
        GameState::spec_run_free(s, n).ball.texture_width == s.ball.texture_width,
        GameState::spec_run_free(s, n).ball.texture_height == s.ball.texture_height,
        GameState::spec_run_free(s, n).ball.rotation_type == s.ball.rotation_type,
    decreases n,
{
    if n > 0 {
        let m = (n - 1) as nat;
        lemma_free_flight(s, m);
        assert(m * s.ball.velocity.x + s.ball.velocity.x == n * s.ball.velocity.x)
            by (nonlinear_arith)
            requires
                m + 1 == n,
        ;
        assert(m * s.ball.velocity.y + s.ball.velocity.y == n * s.ball.velocity.y)
            by (nonlinear_arith)
            requires
                m + 1 == n,
        ;
    }
}

} // verus!
