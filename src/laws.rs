//! Properties that hold of every tick of the simulation.
use vstd::prelude::*;
use vstd::math::abs;
use crate::ball::{
    BALL_HALF_SIZE, bounced, bounced_all, last_collider, lemma_bounced_all_keeps_speed,
};
use crate::field::{FIELD_HALF_WIDTH, PADDLE_BOUND, WallLocation};
use crate::game::{Game, Keys, WALL_INNER_Y, ball_start};
use crate::geometry::{Aabb, Collision, IVec2, collision_of, overlaps};

verus! {

/// Whatever the keys and however long they are held, both paddles end
/// every tick within `[-PADDLE_BOUND, PADDLE_BOUND]`.
pub proof fn lemma_paddles_stay_in_field(g: Game, keys: Keys)
    ensures
        -PADDLE_BOUND <= g.ticked(keys).left_paddle.y <= PADDLE_BOUND,
        -PADDLE_BOUND <= g.ticked(keys).right_paddle.y <= PADDLE_BOUND,
{
}

/// One tick of motion moves the ball by exactly its velocity and leaves the
/// velocity as it was.
pub proof fn lemma_motion_is_exact(g: Game, keys: Keys)
    requires
        g.valid(),
    ensures
        g.after_motion(keys).ball.position.x == g.ball.position.x + g.ball.velocity.x,
        g.after_motion(keys).ball.position.y == g.ball.position.y + g.ball.velocity.y,
        g.after_motion(keys).ball.velocity == g.ball.velocity,
{
}

/// A collider that the ball's box does not overlap never changes the
/// ball's velocity.
pub proof fn lemma_separated_collider_does_not_reflect(v: IVec2, ball: Aabb, collider: Aabb)
    requires
        !overlaps(ball, collider),
    ensures
        bounced(v, ball, collider) == v,
{
}

/// Reflection only turns a component that points into the surface, so a
/// second test against the same collider, before the ball has moved,
/// changes nothing more.
pub proof fn lemma_reflection_is_idempotent(v: IVec2, ball: Aabb, collider: Aabb)
    requires
        v.x != i64::MIN,
        v.y != i64::MIN,
    ensures
        bounced(bounced(v, ball, collider), ball, collider) == bounced(v, ball, collider),
{
}

/// A ball at or past `FIELD_HALF_WIDTH - BALL_HALF_SIZE` moving to the
/// right scores exactly one point for the left player on the next tick and
/// is served again from the start.
pub proof fn lemma_right_exit_scores_for_left(g: Game, keys: Keys, eps: int)
    requires
        g.valid(),
        g.scores_can_grow(),
        eps >= 0,
        g.ball.position.x == FIELD_HALF_WIDTH - BALL_HALF_SIZE + eps,
        g.ball.velocity.x > 0,
    ensures
        g.ticked(keys).scoreboard.left_player_score == g.scoreboard.left_player_score + 1,
        g.ticked(keys).scoreboard.right_player_score == g.scoreboard.right_player_score,
        g.ticked(keys).ball.position == ball_start(),
{
}

/// A ball at or past `-(FIELD_HALF_WIDTH - BALL_HALF_SIZE)` moving to the
/// left scores exactly one point for the right player on the next tick and
/// is served again from the start.
pub proof fn lemma_left_exit_scores_for_right(g: Game, keys: Keys, eps: int)
    requires
        g.valid(),
        g.scores_can_grow(),
        eps >= 0,
        g.ball.position.x == -(FIELD_HALF_WIDTH - BALL_HALF_SIZE) - eps,
        g.ball.velocity.x < 0,
    ensures
        g.ticked(keys).scoreboard.right_player_score == g.scoreboard.right_player_score + 1,
        g.ticked(keys).scoreboard.left_player_score == g.scoreboard.left_player_score,
        g.ticked(keys).ball.position == ball_start(),
{
}

/// Contacts only change the direction of the ball along each axis, never
/// its speed, and a point keeps the velocity the ball had.
pub proof fn lemma_tick_keeps_speed(g: Game, keys: Keys)
    requires
        g.valid(),
    ensures
        abs(g.ticked(keys).ball.velocity.x as int) == abs(g.ball.velocity.x as int),
        abs(g.ticked(keys).ball.velocity.y as int) == abs(g.ball.velocity.y as int),
{
    let m = g.after_motion(keys);
    lemma_bounced_all_keeps_speed(m.ball.velocity, m.ball.bounds(), m.collider_boxes());
}

/// A rally stays in play: the ball never passes through the top or bottom
/// wall, and leaves only across the left or right edge, where it is served
/// again.
pub proof fn lemma_tick_keeps_ball_in_play(g: Game, keys: Keys)
    requires
        g.in_play(),
    ensures
        g.ticked(keys).in_play(),
{
    let m = g.after_motion(keys);
    let b = m.ball.bounds();
    let v = m.ball.velocity;
    let boxes = m.collider_boxes();
    lemma_bounced_all_keeps_speed(v, b, boxes);
    let first3 = boxes.drop_last();
    let first2 = first3.drop_last();
    assert(first3 == seq![boxes[0], boxes[1], boxes[2]]);
    assert(first2 == seq![boxes[0], boxes[1]]);
    assert(last_collider(boxes) == WallLocation::Top.bounds());
    assert(last_collider(first3) == WallLocation::Bottom.bounds());
    let u = bounced_all(v, b, first2);
    let w = bounced_all(v, b, first3);
    lemma_bounced_all_keeps_speed(v, b, first2);
    lemma_bounced_all_keeps_speed(v, b, first3);
    assert(bounced_all(v, b, boxes) == bounced(w, b, WallLocation::Top.bounds()));
    assert(w == bounced(u, b, WallLocation::Bottom.bounds()));
    let y = m.ball.position.y;
    if y > WALL_INNER_Y - BALL_HALF_SIZE {
        assert(collision_of(b, WallLocation::Top.bounds()) == Some(Collision::Bottom));
    } else if y < -(WALL_INNER_Y - BALL_HALF_SIZE) {
        assert(collision_of(b, WallLocation::Bottom.bounds()) == Some(Collision::Top));
        assert(collision_of(b, WallLocation::Top.bounds()) is None);
    }
}

} // verus!
