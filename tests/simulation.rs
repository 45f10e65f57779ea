use pong::ball::{reflect, Ball, BALL_HALF_SIZE};
use pong::field::{
    input_direction, move_paddle_y, LeftPaddle, RightPaddle, WallLocation, FIELD_HALF_WIDTH,
    LEFT_PADDLE_X, PADDLE_BOUND, RIGHT_PADDLE_X,
};
use pong::game::{Game, Keys};
use pong::geometry::{collide, Aabb, Collision, IVec2};

fn no_keys() -> Keys {
    Keys { left_up: false, left_down: false, right_up: false, right_down: false }
}

fn boxed(min_x: i64, min_y: i64, max_x: i64, max_y: i64) -> Aabb {
    Aabb { min_x, min_y, max_x, max_y }
}

#[test]
fn collide_reports_each_side() {
    let other = boxed(0, 0, 100, 100);
    assert_eq!(collide(&boxed(-10, 40, 10, 60), &other), Some(Collision::Left));
    assert_eq!(collide(&boxed(90, 40, 110, 60), &other), Some(Collision::Right));
    assert_eq!(collide(&boxed(40, 90, 60, 110), &other), Some(Collision::Top));
    assert_eq!(collide(&boxed(40, -10, 60, 10), &other), Some(Collision::Bottom));
    assert_eq!(collide(&boxed(40, 40, 60, 60), &other), Some(Collision::Inside));
    assert_eq!(collide(&boxed(200, 200, 220, 220), &other), None);
    assert_eq!(collide(&boxed(100, 40, 120, 60), &other), None);
}

#[test]
fn collide_picks_smaller_penetration() {
    let other = boxed(0, 0, 100, 100);
    // Corner of the left and bottom edges: 5 deep horizontally, 15 vertically.
    assert_eq!(collide(&boxed(-15, -5, 5, 15), &other), Some(Collision::Left));
    // 15 deep horizontally, 5 vertically.
    assert_eq!(collide(&boxed(-5, -15, 15, 5), &other), Some(Collision::Bottom));
}

#[test]
fn collide_prefers_vertical_on_tie() {
    let other = boxed(0, 0, 100, 100);
    assert_eq!(collide(&boxed(-10, -10, 10, 10), &other), Some(Collision::Bottom));
    assert_eq!(collide(&boxed(90, 90, 110, 110), &other), Some(Collision::Top));
}

#[test]
fn reflect_only_turns_inward_components() {
    let v = IVec2 { x: 3, y: -4 };
    assert_eq!(reflect(v, Collision::Left), IVec2 { x: -3, y: -4 });
    assert_eq!(reflect(v, Collision::Right), v);
    assert_eq!(reflect(v, Collision::Top), IVec2 { x: 3, y: 4 });
    assert_eq!(reflect(v, Collision::Bottom), v);
    assert_eq!(reflect(v, Collision::Inside), v);
}

#[test]
fn input_direction_of_keys() {
    assert_eq!(input_direction(true, false), 1);
    assert_eq!(input_direction(false, true), -1);
    assert_eq!(input_direction(false, false), 0);
    assert_eq!(input_direction(true, true), 1);
}

#[test]
fn paddle_moves_and_clamps() {
    assert_eq!(PADDLE_BOUND, 16800);
    assert_eq!(move_paddle_y(0, 1), 400);
    assert_eq!(move_paddle_y(0, -1), -400);
    assert_eq!(move_paddle_y(0, 0), 0);
    assert_eq!(move_paddle_y(16700, 1), 16800);
    assert_eq!(move_paddle_y(-16700, -1), -16800);
    assert_eq!(move_paddle_y(i64::MAX, i64::MAX), 16800);
    assert_eq!(move_paddle_y(i64::MIN, i64::MIN), -16800);
}

#[test]
fn paddles_never_leave_field_while_key_held() {
    let mut game = Game::new();
    let keys = Keys { left_up: true, left_down: false, right_up: false, right_down: true };
    for _ in 0..1000 {
        game.tick(keys);
        assert!(game.left_paddle.y.abs() <= PADDLE_BOUND);
        assert!(game.right_paddle.y.abs() <= PADDLE_BOUND);
    }
    assert_eq!(game.left_paddle.y, PADDLE_BOUND);
    assert_eq!(game.right_paddle.y, -PADDLE_BOUND);
}

#[test]
fn apply_velocity_is_exact() {
    let mut ball = Ball { position: IVec2 { x: 17, y: -23 }, velocity: IVec2 { x: 354, y: -354 } };
    ball.apply_velocity();
    assert_eq!(ball.position, IVec2 { x: 371, y: -377 });
    assert_eq!(ball.velocity, IVec2 { x: 354, y: -354 });
}

#[test]
fn wall_geometry() {
    assert_eq!(WallLocation::Top.position(), IVec2 { x: 0, y: 21600 });
    assert_eq!(WallLocation::Bottom.position(), IVec2 { x: 0, y: -21600 });
    assert_eq!(WallLocation::Top.size(), IVec2 { x: 77400, y: 600 });
    assert_eq!(WallLocation::Top.aabb(), boxed(-38700, 21300, 38700, 21900));
    assert_eq!(LeftPaddle { y: 0 }.aabb(), boxed(LEFT_PADDLE_X - 600, -3600, LEFT_PADDLE_X + 600, 3600));
    assert_eq!(RightPaddle { y: 100 }.aabb(), boxed(RIGHT_PADDLE_X - 600, -3500, RIGHT_PADDLE_X + 600, 3700));
}

#[test]
fn ball_bounces_off_top_wall() {
    let mut game = Game::new();
    game.ball = Ball { position: IVec2 { x: 0, y: 20500 }, velocity: IVec2 { x: 0, y: 300 } };
    let events = game.tick(no_keys());
    assert_eq!(events, 1);
    assert_eq!(game.ball.position, IVec2 { x: 0, y: 20800 });
    assert_eq!(game.ball.velocity, IVec2 { x: 0, y: -300 });
}

#[test]
fn separated_ball_is_not_reflected_again() {
    let mut game = Game::new();
    game.ball = Ball { position: IVec2 { x: 0, y: 20710 }, velocity: IVec2 { x: 0, y: 20 } };
    assert_eq!(game.tick(no_keys()), 1);
    assert_eq!(game.ball.velocity, IVec2 { x: 0, y: -20 });
    // Still touching the wall, now moving away from it: no second flip.
    assert_eq!(game.tick(no_keys()), 1);
    assert_eq!(game.ball.velocity, IVec2 { x: 0, y: -20 });
    // Separated from the wall: no contact at all.
    assert_eq!(game.tick(no_keys()), 0);
    assert_eq!(game.ball.velocity, IVec2 { x: 0, y: -20 });
    assert_eq!(game.ball.position, IVec2 { x: 0, y: 20690 });
}

#[test]
fn ball_bounces_off_right_paddle() {
    let mut game = Game::new();
    let start_x = RIGHT_PADDLE_X - 600 - BALL_HALF_SIZE - 100;
    game.ball = Ball { position: IVec2 { x: start_x, y: 0 }, velocity: IVec2 { x: 300, y: 0 } };
    assert_eq!(game.tick(no_keys()), 1);
    assert_eq!(game.ball.velocity, IVec2 { x: -300, y: 0 });
}

#[test]
fn ball_leaving_right_scores_for_left() {
    let mut game = Game::new();
    let edge = FIELD_HALF_WIDTH - BALL_HALF_SIZE;
    game.right_paddle.y = PADDLE_BOUND;
    game.ball = Ball { position: IVec2 { x: edge + 1, y: 0 }, velocity: IVec2 { x: 354, y: -354 } };
    game.tick(no_keys());
    assert_eq!(game.scoreboard.left_player_score, 1);
    assert_eq!(game.scoreboard.right_player_score, 0);
    assert_eq!(game.ball.position, IVec2 { x: 0, y: 0 });
    // The velocity is kept through the serve.
    assert_eq!(game.ball.velocity, IVec2 { x: 354, y: -354 });
}

#[test]
fn ball_leaving_left_scores_for_right() {
    let mut game = Game::new();
    let edge = FIELD_HALF_WIDTH - BALL_HALF_SIZE;
    game.left_paddle.y = -PADDLE_BOUND;
    game.ball = Ball { position: IVec2 { x: -edge - 1, y: 0 }, velocity: IVec2 { x: -354, y: 100 } };
    game.tick(no_keys());
    assert_eq!(game.scoreboard.right_player_score, 1);
    assert_eq!(game.scoreboard.left_player_score, 0);
    assert_eq!(game.ball.position, IVec2 { x: 0, y: 0 });
    assert_eq!(game.ball.velocity, IVec2 { x: -354, y: 100 });
}

#[test]
fn new_game_starts_centred() {
    let game = Game::new();
    assert_eq!(game.ball.position, IVec2 { x: 0, y: 0 });
    assert_eq!(game.ball.velocity, IVec2 { x: 354, y: -354 });
    assert_eq!(game.left_paddle.y, 0);
    assert_eq!(game.right_paddle.y, 0);
    assert_eq!(game.scoreboard.left_player_score, 0);
    assert_eq!(game.scoreboard.right_player_score, 0);
}

#[test]
fn horizontal_serve_runs_out_on_the_right() {
    let mut game = Game::new();
    game.ball.velocity = IVec2 { x: 500, y: 0 };
    // Move the right paddle out of the ball's path first.
    game.right_paddle.y = PADDLE_BOUND;
    let mut first_point = None;
    for t in 0..10_000u32 {
        game.tick(no_keys());
        assert_eq!(game.ball.velocity.y, 0);
        assert_eq!(game.ball.position.y, 0);
        if first_point.is_none() && game.scoreboard.left_player_score == 1 {
            first_point = Some(t);
            assert_eq!(game.ball.position, IVec2 { x: 0, y: 0 });
        }
    }
    assert_eq!(first_point, Some(75));
    assert_eq!(game.scoreboard.right_player_score, 0);
}

#[test]
fn horizontal_serve_with_centred_paddles_is_returned() {
    let mut game = Game::new();
    game.ball.velocity = IVec2 { x: 500, y: 0 };
    for _ in 0..10_000u32 {
        game.tick(no_keys());
        assert_eq!(game.ball.velocity.y, 0);
    }
    assert_eq!(game.scoreboard.left_player_score, 0);
    assert_eq!(game.scoreboard.right_player_score, 0);
}

#[test]
fn long_rally_stays_between_walls() {
    let mut game = Game::new();
    for t in 0..20_000u32 {
        let keys = Keys { left_up: t % 300 < 150, left_down: true, right_up: t % 170 < 60, right_down: true };
        game.tick(keys);
        assert!(game.ball.position.y.abs() < 21300);
        assert!(game.ball.position.x.abs() <= FIELD_HALF_WIDTH - BALL_HALF_SIZE);
    }
}
