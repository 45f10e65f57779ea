//! The whole simulation state and the fixed tick that advances it.
use vstd::prelude::*;
use crate::ball::{
    BALL_HALF_SIZE, Ball, bounce_all, bounced_all, contact_count, negatable, within_double_limit,
};
use crate::field::{
    FIELD_HALF_HEIGHT, FIELD_HALF_WIDTH, LeftPaddle, PADDLE_BOUND, RightPaddle,
    WALL_HALF_THICKNESS, WallLocation, direction_of, input_direction, move_paddle_y,
    moved_paddle_y,
};
use crate::geometry::{Aabb, IVec2};
use crate::laws::lemma_tick_keeps_ball_in_play;
use crate::scoreboard::Scoreboard;

verus! {

/// Where the ball is put at the start and after every point.
pub const BALL_START_X: i64 = 0;
pub const BALL_START_Y: i64 = 0;
/// The ball's first velocity: 500 world units per second toward the lower
/// right, each component rounded to a whole sub-unit per tick.
pub const BALL_START_VELOCITY_X: i64 = 354;
pub const BALL_START_VELOCITY_Y: i64 = -354;

/// Fastest a ball may move along either axis and still be proved to stay
/// between the walls: below its own half size per tick.
pub const MAX_RALLY_SPEED: i64 = BALL_HALF_SIZE - 1;
/// Height of the inner face of the top wall.
pub const WALL_INNER_Y: i64 = FIELD_HALF_HEIGHT - WALL_HALF_THICKNESS;

/// The keys held during one tick: an up and a down key for each paddle.
#[derive(Clone, Copy, Debug, PartialEq, Eq, Structural)]
pub struct Keys {
    pub left_up: bool,
    pub left_down: bool,
    pub right_up: bool,
    pub right_down: bool,
}

/// The ball, the two paddles and the scores. The walls are fixed.
#[derive(Clone, Copy, Debug, PartialEq, Eq, Structural)]
pub struct Game {
    pub ball: Ball,
    pub left_paddle: LeftPaddle,
    pub right_paddle: RightPaddle,
    pub scoreboard: Scoreboard,
}

pub open spec fn ball_start() -> IVec2 {
    IVec2 { x: BALL_START_X, y: BALL_START_Y }
}

impl Game {
    /// The ball lies within the coordinate limit and each paddle within the
    /// field.
    pub open spec fn valid(self) -> bool {
        &&& self.ball.valid()
        &&& -PADDLE_BOUND <= self.left_paddle.y <= PADDLE_BOUND
        &&& -PADDLE_BOUND <= self.right_paddle.y <= PADDLE_BOUND
    }

    /// The state in which collisions can be tested: the state of a valid
    /// game after one tick of motion, or any state closer to the centre.
    pub open spec fn collidable(self) -> bool {
        &&& within_double_limit(self.ball.position.x as int)
        &&& within_double_limit(self.ball.position.y as int)
        &&& negatable(self.ball.velocity)
        &&& -PADDLE_BOUND <= self.left_paddle.y <= PADDLE_BOUND
        &&& -PADDLE_BOUND <= self.right_paddle.y <= PADDLE_BOUND
    }

    /// A rally in progress: a valid game whose ball is on the field, between
    /// the walls, no faster than `MAX_RALLY_SPEED` on either axis, and not
    /// moving into a wall that it already touches.
    pub open spec fn in_play(self) -> bool {
        let p = self.ball.position;
        let v = self.ball.velocity;
        &&& self.valid()
        &&& -MAX_RALLY_SPEED <= v.x <= MAX_RALLY_SPEED
        &&& -MAX_RALLY_SPEED <= v.y <= MAX_RALLY_SPEED
        &&& -(FIELD_HALF_WIDTH - BALL_HALF_SIZE) <= p.x <= FIELD_HALF_WIDTH - BALL_HALF_SIZE
        &&& -WALL_INNER_Y < p.y < WALL_INNER_Y
        &&& p.y > WALL_INNER_Y - BALL_HALF_SIZE ==> v.y <= 0
        &&& p.y < -(WALL_INNER_Y - BALL_HALF_SIZE) ==> v.y >= 0
    }

    /// Neither score is at its largest value, so a point can be counted.
    pub open spec fn scores_can_grow(self) -> bool {
        &&& self.scoreboard.left_player_score < usize::MAX
        &&& self.scoreboard.right_player_score < usize::MAX
    }

    /// Everything the ball is tested against, in a fixed order: the left
    /// paddle, the right paddle, the bottom wall, the top wall.
    pub open spec fn collider_boxes(self) -> Seq<Aabb> {
        seq![
            self.left_paddle.bounds(),
            self.right_paddle.bounds(),
            WallLocation::Bottom.bounds(),
            WallLocation::Top.bounds(),
        ]
    }

    /// The state after the keys are read and everything has moved.
    pub open spec fn after_motion(self, keys: Keys) -> Game {
        Game {
            ball: self.ball.integrated(),
            left_paddle: LeftPaddle {
                y: moved_paddle_y(
                    self.left_paddle.y as int,
                    direction_of(keys.left_up, keys.left_down),
                ) as i64,
            },
            right_paddle: RightPaddle {
                y: moved_paddle_y(
                    self.right_paddle.y as int,
                    direction_of(keys.right_up, keys.right_down),
                ) as i64,
            },
            ..self
        }
    }

    /// The state after the ball is tested against every collider.
    pub open spec fn after_collisions(self) -> Game {
        Game {
            ball: Ball {
                velocity: bounced_all(
                    self.ball.velocity,
                    self.ball.bounds(),
                    self.collider_boxes(),
                ),
                ..self.ball
            },
            ..self
        }
    }

    /// The ball has left the field across the right edge.
    pub open spec fn ball_out_right(self) -> bool {
        self.ball.position.x + BALL_HALF_SIZE > FIELD_HALF_WIDTH
    }

    /// The ball has left the field across the left edge.
    pub open spec fn ball_out_left(self) -> bool {
        self.ball.position.x - BALL_HALF_SIZE < -FIELD_HALF_WIDTH
    }

    /// The state after scoring: a ball out on the right is a point for the
    /// left player, one out on the left a point for the right player, and
    /// either way the ball goes back to the start with its velocity kept.
    pub open spec fn after_scoring(self) -> Game {
        if self.ball_out_right() {
            Game {
                ball: Ball { position: ball_start(), ..self.ball },
                scoreboard: Scoreboard {
                    left_player_score: (self.scoreboard.left_player_score + 1) as usize,
                    ..self.scoreboard
                },
                ..self
            }
        } else if self.ball_out_left() {
            Game {
                ball: Ball { position: ball_start(), ..self.ball },
                scoreboard: Scoreboard {
                    right_player_score: (self.scoreboard.right_player_score + 1) as usize,
                    ..self.scoreboard
                },
                ..self
            }
        } else {
            self
        }
    }

    /// The state after one full tick.
    pub open spec fn ticked(self, keys: Keys) -> Game {
        self.after_motion(keys).after_collisions().after_scoring()
    }

    /// The number of collision events one tick emits.
    pub open spec fn tick_events(self, keys: Keys) -> nat {
        let moved = self.after_motion(keys);
        contact_count(moved.ball.bounds(), moved.collider_boxes())
    }

    /// A new match: both paddles centred, the ball at its start and no
    /// points scored.
    pub fn new() -> (r: Game)
        ensures
            r.in_play(),
            r.ball.position == ball_start(),
            r.ball.velocity == (IVec2 { x: BALL_START_VELOCITY_X, y: BALL_START_VELOCITY_Y }),
            r.left_paddle.y == 0,
            r.right_paddle.y == 0,
            r.scoreboard.left_player_score == 0,
            r.scoreboard.right_player_score == 0,
    {
        Game {
            ball: Ball {
                position: IVec2 { x: BALL_START_X, y: BALL_START_Y },
                velocity: IVec2 { x: BALL_START_VELOCITY_X, y: BALL_START_VELOCITY_Y },
            },
            left_paddle: LeftPaddle { y: 0 },
            right_paddle: RightPaddle { y: 0 },
            scoreboard: Scoreboard { left_player_score: 0, right_player_score: 0 },
        }
    }

    /// The colliders' boxes, in the order of `collider_boxes`.
    pub fn colliders(&self) -> (r: Vec<Aabb>)
        requires
            -PADDLE_BOUND <= self.left_paddle.y <= PADDLE_BOUND,
            -PADDLE_BOUND <= self.right_paddle.y <= PADDLE_BOUND,
        ensures
            r@ == self.collider_boxes(),
    {
        let r = vec![
            self.left_paddle.aabb(),
            self.right_paddle.aabb(),
            WallLocation::Bottom.aabb(),
            WallLocation::Top.aabb(),
        ];
        assert(r@ == self.collider_boxes());
        r
    }

    /// Moves the left paddle by one tick of the direction its keys give.
    pub fn move_left_paddle(&mut self, up: bool, down: bool)
        ensures
            *final(self) == (Game {
                left_paddle: LeftPaddle {
                    y: moved_paddle_y(old(self).left_paddle.y as int, direction_of(up, down))
                        as i64,
                },
                ..*old(self)
            }),
            -PADDLE_BOUND <= final(self).left_paddle.y <= PADDLE_BOUND,
    {
        let direction = input_direction(up, down);
        self.left_paddle.y = move_paddle_y(self.left_paddle.y, direction);
    }

    /// Moves the right paddle by one tick of the direction its keys give.
    pub fn move_right_paddle(&mut self, up: bool, down: bool)
        ensures
            *final(self) == (Game {
                right_paddle: RightPaddle {
                    y: moved_paddle_y(old(self).right_paddle.y as int, direction_of(up, down))
                        as i64,
                },
                ..*old(self)
            }),
            -PADDLE_BOUND <= final(self).right_paddle.y <= PADDLE_BOUND,
    {
        let direction = input_direction(up, down);
        self.right_paddle.y = move_paddle_y(self.right_paddle.y, direction);
    }

    /// Tests the ball against every collider and reflects its velocity.
    /// Returns the number of collision events emitted.
    pub fn check_for_collisions(&mut self) -> (events: usize)
        requires
            old(self).collidable(),
        ensures
            *final(self) == old(self).after_collisions(),
            events == contact_count(old(self).ball.bounds(), old(self).collider_boxes()),
    {
        let ball_box = self.ball.aabb();
        let colliders = self.colliders();
        let (velocity, events) = bounce_all(self.ball.velocity, &ball_box, &colliders);
        self.ball.velocity = velocity;
        events
    }

    /// Counts a point and serves the ball again when it has left the field
    /// across the left or right edge.
    pub fn check_if_ball_on_screen(&mut self)
        requires
            within_double_limit(old(self).ball.position.x as int),
            old(self).scores_can_grow(),
        ensures
            *final(self) == old(self).after_scoring(),
    {
        if self.ball.position.x + BALL_HALF_SIZE > FIELD_HALF_WIDTH {
            self.ball.position = IVec2 { x: BALL_START_X, y: BALL_START_Y };
            self.scoreboard.left_player_score = self.scoreboard.left_player_score + 1;
        } else if self.ball.position.x - BALL_HALF_SIZE < -FIELD_HALF_WIDTH {
            self.ball.position = IVec2 { x: BALL_START_X, y: BALL_START_Y };
            self.scoreboard.right_player_score = self.scoreboard.right_player_score + 1;
        }
    }

    /// Runs one fixed tick: reads the keys, moves the ball and the paddles,
    /// resolves collisions, then checks for a point. Returns the number of
    /// collision events emitted.
    pub fn tick(&mut self, keys: Keys) -> (events: usize)
        requires
            old(self).valid(),
            old(self).scores_can_grow(),
        ensures
            *final(self) == old(self).ticked(keys),
            events == old(self).tick_events(keys),
            -PADDLE_BOUND <= final(self).left_paddle.y <= PADDLE_BOUND,
            -PADDLE_BOUND <= final(self).right_paddle.y <= PADDLE_BOUND,
            old(self).in_play() ==> final(self).in_play(),
    {
        proof {
            if old(self).in_play() {
                lemma_tick_keeps_ball_in_play(*old(self), keys);
            }
        }
        self.ball.apply_velocity();
        self.move_left_paddle(keys.left_up, keys.left_down);
        self.move_right_paddle(keys.right_up, keys.right_down);
        let events = self.check_for_collisions();
        self.check_if_ball_on_screen();
        events
    }
}

} // verus!
