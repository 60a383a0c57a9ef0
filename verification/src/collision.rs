//! Collision detection and scoring, run once per tick after movement.
//!
//! The ball's four edge coordinates come from its center and scale. Since a
//! scale may be odd, an edge sits on a half-subunit; all edge tests are
//! therefore carried out on doubled coordinates, which keeps the arithmetic
//! exact. A spec value called `..._2x` is twice the coordinate it names.
//!
//! Order within one tick: the player paddle test (reflect horizontal
//! velocity), else the symmetric opponent paddle test; then, independently,
//! the top/bottom wall test (reflect vertical velocity); then the right
//! wall test (opponent scores, reflect horizontal velocity), else the left
//! wall test (player scores, reflect horizontal velocity). The paddle test
//! and the scoring test can each reflect the horizontal velocity in the
//! same tick, with no de-duplication guard. There is no ball reset after a
//! score: the ball continues from its position with reversed velocity.

use vstd::prelude::*;

use crate::geom::Transform2;
use crate::geom::Vec2i;
use crate::geom::WallLocation;
use crate::geom::wall_inner;
use crate::scoreboard::Scoreboard;

verus! {

/// Strictly between two values: below the first, above the second.
pub open spec fn between(input: int, val_1: int, val_2: int) -> bool {
    input < val_1 && input > val_2
}

/// Strict two-sided comparison, matching `between`.
pub fn is_between(input: i128, val_1: i128, val_2: i128) -> (r: bool)
    ensures
        r == between(input as int, val_1 as int, val_2 as int),
{
    if input < val_1 && input > val_2 {
        return true;
    }
    false
}

/// Twice the top edge of a rectangle (center plus half the scale).
pub open spec fn top_edge_2x(t: Transform2) -> int {
    2 * t.translation.y + t.scale.y
}

/// Twice the bottom edge of a rectangle.
pub open spec fn bottom_edge_2x(t: Transform2) -> int {
    2 * t.translation.y - t.scale.y
}

/// Twice the left edge of a rectangle.
pub open spec fn left_edge_2x(t: Transform2) -> int {
    2 * t.translation.x - t.scale.x
}

/// Twice the right edge of a rectangle.
pub open spec fn right_edge_2x(t: Transform2) -> int {
    2 * t.translation.x + t.scale.x
}

/// The ball's vertical center lies strictly between the player paddle's
/// top and bottom edges, and its left edge lies strictly between the
/// paddle's left and right edges. This is a reduced one-axis overlap test
/// on the ball's leading edge and center line, not a full rectangle
/// intersection.
pub open spec fn hits_player(ball: Transform2, player: Transform2) -> bool {
    between(2 * ball.translation.y, top_edge_2x(player), bottom_edge_2x(player)) && between(
        left_edge_2x(ball),
        right_edge_2x(player),
        left_edge_2x(player),
    )
}

/// The symmetric test against the opponent paddle, using the ball's right
/// edge as the leading edge.
pub open spec fn hits_opponent(ball: Transform2, opponent: Transform2) -> bool {
    between(2 * ball.translation.y, top_edge_2x(opponent), bottom_edge_2x(opponent)) && between(
        right_edge_2x(ball),
        right_edge_2x(opponent),
        left_edge_2x(opponent),
    )
}

/// The paddle tests reflect the horizontal velocity: the player test, or
/// else (mutually exclusive) the opponent test.
pub open spec fn paddle_bounce(ball: Transform2, player: Transform2, opponent: Transform2) -> bool {
    hits_player(ball, player) || (!hits_player(ball, player) && hits_opponent(ball, opponent))
}

/// The ball's top edge exceeds the top wall's inner surface, or its bottom
/// edge is below the bottom wall's inner surface.
pub open spec fn crosses_top_or_bottom(ball: Transform2) -> bool {
    top_edge_2x(ball) > 2 * wall_inner(WallLocation::Top).y || bottom_edge_2x(ball) < 2
        * wall_inner(WallLocation::Bottom).y
}

/// The ball's right edge exceeds the right wall's inner surface: the
/// opponent scores.
pub open spec fn crosses_right(ball: Transform2) -> bool {
    right_edge_2x(ball) > 2 * wall_inner(WallLocation::Right).x
}

/// The ball's left edge is beyond the left wall's inner surface: the
/// player scores. Only tested when the right wall was not crossed.
pub open spec fn crosses_left(ball: Transform2) -> bool {
    left_edge_2x(ball) < 2 * wall_inner(WallLocation::Left).x
}

/// How much the opponent's score grows this tick: 1 on a right-wall
/// crossing, else 0.
pub open spec fn opponent_score_delta(ball: Transform2) -> nat {
    if crosses_right(ball) {
        1
    } else {
        0
    }
}

/// How much the player's score grows this tick: 1 on a left-wall crossing
/// when the right wall was not crossed, else 0.
pub open spec fn player_score_delta(ball: Transform2) -> nat {
    if !crosses_right(ball) && crosses_left(ball) {
        1
    } else {
        0
    }
}

/// The ball's horizontal velocity after the collision pass: reflected once
/// by a paddle bounce and once more by a scoring wall crossing, so the two
/// together restore the original value.
pub open spec fn collide_vel_x(
    ball: Transform2,
    player: Transform2,
    opponent: Transform2,
    vx: int,
) -> int {
    let after_paddle: int = if paddle_bounce(ball, player, opponent) {
        -vx
    } else {
        vx
    };
    if crosses_right(ball) || crosses_left(ball) {
        -after_paddle
    } else {
        after_paddle
    }
}

/// The ball's vertical velocity after the collision pass: reflected by a
/// top or bottom wall crossing.
pub open spec fn collide_vel_y(ball: Transform2, vy: int) -> int {
    if crosses_top_or_bottom(ball) {
        -vy
    } else {
        vy
    }
}

/// One collision-and-scoring pass over the ball against the paddles and
/// the walls, reflecting the ball's velocity and crediting boundary
/// crossings to the scoreboard.
pub fn check_for_collisions(
    ball_velocity: &mut Vec2i,
    ball: &Transform2,
    player: &Transform2,
    opponent: &Transform2,
    scoreboard: &mut Scoreboard,
)
    requires
        old(ball_velocity).x > i64::MIN,
        old(ball_velocity).y > i64::MIN,
        old(scoreboard).player_score < usize::MAX,
        old(scoreboard).opponent_score < usize::MAX,
    ensures
        final(ball_velocity).x == collide_vel_x(*ball, *player, *opponent, old(ball_velocity).x as int),
        final(ball_velocity).y == collide_vel_y(*ball, old(ball_velocity).y as int),
        final(scoreboard).player_score == old(scoreboard).player_score + player_score_delta(*ball),
        final(scoreboard).opponent_score == old(scoreboard).opponent_score + opponent_score_delta(
            *ball,
        ),
{
    let ball_center_y_2x: i128 = 2 * (ball.translation.y as i128);
    let ball_top_2x: i128 = 2 * (ball.translation.y as i128) + (ball.scale.y as i128);
    let ball_bottom_2x: i128 = 2 * (ball.translation.y as i128) - (ball.scale.y as i128);
    let ball_left_2x: i128 = 2 * (ball.translation.x as i128) - (ball.scale.x as i128);
    let ball_right_2x: i128 = 2 * (ball.translation.x as i128) + (ball.scale.x as i128);

    if is_between(
        ball_center_y_2x,
        2 * (player.translation.y as i128) + (player.scale.y as i128),
        2 * (player.translation.y as i128) - (player.scale.y as i128),
    ) && is_between(
        ball_left_2x,
        2 * (player.translation.x as i128) + (player.scale.x as i128),
        2 * (player.translation.x as i128) - (player.scale.x as i128),
    ) {
        ball_velocity.x = -ball_velocity.x;
    } else if is_between(
        ball_center_y_2x,
        2 * (opponent.translation.y as i128) + (opponent.scale.y as i128),
        2 * (opponent.translation.y as i128) - (opponent.scale.y as i128),
    ) && is_between(
        ball_right_2x,
        2 * (opponent.translation.x as i128) + (opponent.scale.x as i128),
        2 * (opponent.translation.x as i128) - (opponent.scale.x as i128),
    ) {
        ball_velocity.x = -ball_velocity.x;
    }

    if ball_top_2x > 2 * (WallLocation::Top.inner().y as i128) || ball_bottom_2x < 2 * (
    WallLocation::Bottom.inner().y as i128) {
        ball_velocity.y = -ball_velocity.y;
    }

    if ball_right_2x > 2 * (WallLocation::Right.inner().x as i128) {
        scoreboard.opponent_score = scoreboard.opponent_score + 1;
        ball_velocity.x = -ball_velocity.x;
    } else if ball_left_2x < 2 * (WallLocation::Left.inner().x as i128) {
        scoreboard.player_score = scoreboard.player_score + 1;
        ball_velocity.x = -ball_velocity.x;
    }
}

/// Two reflections of the same axis in the same tick cancel: when a paddle
/// bounce and a scoring wall crossing both happen, the horizontal velocity
/// comes out unchanged.
pub proof fn lemma_reflection_idempotent(
    ball: Transform2,
    player: Transform2,
    opponent: Transform2,
    vx: int,
)
    ensures
        paddle_bounce(ball, player, opponent) && (crosses_right(ball) || crosses_left(ball))
            ==> collide_vel_x(ball, player, opponent, vx) == vx,
        !paddle_bounce(ball, player, opponent) && !(crosses_right(ball) || crosses_left(ball))
            ==> collide_vel_x(ball, player, opponent, vx) == vx,
{
}

/// A single tick credits at most one point, to exactly one side: the
/// opponent on a right-wall crossing, the player on a left-wall crossing
/// with the right wall not crossed; never both.
pub proof fn lemma_score_single_increment(ball: Transform2)
    ensures
        player_score_delta(ball) + opponent_score_delta(ball) <= 1,
        opponent_score_delta(ball) == 1 <==> crosses_right(ball),
        player_score_delta(ball) == 1 <==> (!crosses_right(ball) && crosses_left(ball)),
{
}

} // verus!
