//! Per-tick movement integration and paddle control.
//!
//! Every simulation tick, an entity carrying a velocity has its position
//! advanced by exactly that velocity (velocities are stored as displacement
//! per tick, see the crate root). The player paddle instead moves by a
//! direct per-tick displacement chosen from the held keys; the opponent
//! paddle's velocity is set each tick by a reactive tracking rule.

use vstd::prelude::*;

use crate::geom::OPPONENT_VELOCITY;
use crate::geom::PLAYER_VELOCITY;
use crate::geom::Transform2;
use crate::geom::Vec2i;

verus! {

/// Advance a position by one tick of its velocity: explicit Euler
/// integration on both axes, no sub-stepping. The scale is untouched.
pub fn apply_velocity(transform: &mut Transform2, velocity: &Vec2i)
    requires
        i64::MIN <= old(transform).translation.x + velocity.x <= i64::MAX,
        i64::MIN <= old(transform).translation.y + velocity.y <= i64::MAX,
    ensures
        final(transform).translation.x == old(transform).translation.x + velocity.x,
        final(transform).translation.y == old(transform).translation.y + velocity.y,
        final(transform).scale == old(transform).scale,
{
    transform.translation.x = transform.translation.x + velocity.x;
    transform.translation.y = transform.translation.y + velocity.y;
}

/// Vertical displacement of the player paddle for one tick, given which
/// keys are held: "up" moves by +PLAYER_VELOCITY, "down" by
/// -PLAYER_VELOCITY, neither by 0. When both are held, "down" wins,
/// because the "down" key is checked last and overwrites the direction.
pub open spec fn player_step(up_held: bool, down_held: bool) -> int {
    if down_held {
        -PLAYER_VELOCITY as int
    } else if up_held {
        PLAYER_VELOCITY as int
    } else {
        0
    }
}

/// Move the player paddle by the per-tick displacement of the held keys.
/// The paddle has no velocity or acceleration, only this direct mutation.
pub fn move_player(transform: &mut Transform2, up_held: bool, down_held: bool)
    requires
        i64::MIN <= old(transform).translation.y + player_step(up_held, down_held) <= i64::MAX,
    ensures
        final(transform).translation.y == old(transform).translation.y + player_step(
            up_held,
            down_held,
        ),
        final(transform).translation.x == old(transform).translation.x,
        final(transform).scale == old(transform).scale,
{
    let mut direction: i64 = 0;
    if up_held {
        direction = 1;
    }
    if down_held {
        direction = -1;
    }
    let new_pos = transform.translation.y + direction * PLAYER_VELOCITY;
    transform.translation.y = new_pos;
}

/// The opponent's vertical velocity after one tick of tracking: a fixed
/// speed toward the ball's vertical position, and the previous velocity
/// unchanged when the ball is exactly level with the paddle.
pub open spec fn opponent_tracking_velocity(prev_vy: int, ball_y: int, opponent_y: int) -> int {
    if ball_y > opponent_y {
        OPPONENT_VELOCITY as int
    } else if ball_y < opponent_y {
        -OPPONENT_VELOCITY as int
    } else {
        prev_vy
    }
}

/// Reactive opponent controller: compare the ball's vertical position to
/// the paddle's and set the vertical velocity to the fixed tracking speed
/// toward the ball; leave it unchanged on exact equality.
pub fn move_opponent(velocity: &mut Vec2i, opponent_y: i64, ball_y: i64)
    ensures
        final(velocity).y == opponent_tracking_velocity(
            old(velocity).y as int,
            ball_y as int,
            opponent_y as int,
        ),
        final(velocity).x == old(velocity).x,
{
    if ball_y > opponent_y {
        velocity.y = OPPONENT_VELOCITY;
    } else if ball_y < opponent_y {
        velocity.y = -OPPONENT_VELOCITY;
    }
}

/// Sign of an integer: 1, -1 or 0.
pub open spec fn sign(x: int) -> int {
    if x > 0 {
        1
    } else if x < 0 {
        -1
    } else {
        0
    }
}

/// The opponent's velocity sign always matches the sign of
/// (ball.y - opponent.y), except when the two are exactly equal, where the
/// velocity is left unchanged from the prior tick.
pub proof fn lemma_opponent_tracks_ball(prev_vy: int, ball_y: int, opponent_y: int)
    ensures
        ball_y != opponent_y ==> sign(opponent_tracking_velocity(prev_vy, ball_y, opponent_y))
            == sign(ball_y - opponent_y),
        ball_y == opponent_y ==> opponent_tracking_velocity(prev_vy, ball_y, opponent_y)
            == prev_vy,
{
}

} // verus!
