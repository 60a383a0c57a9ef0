use pong::collision::check_for_collisions;
use pong::collision::is_between;
use pong::geom::Paddle;
use pong::geom::Transform2;
use pong::geom::Vec2i;
use pong::geom::WallLocation;
use pong::motion::apply_velocity;
use pong::motion::move_opponent;
use pong::motion::move_player;
use pong::scoreboard::Scoreboard;

fn transform(x: i64, y: i64, sx: i64, sy: i64) -> Transform2 {
    Transform2 { translation: Vec2i::new(x, y), scale: Vec2i::new(sx, sy) }
}

fn player_paddle() -> Transform2 {
    Transform2 {
        translation: Paddle::Player.position(),
        scale: Paddle::Player.size(),
    }
}

fn opponent_paddle() -> Transform2 {
    Transform2 {
        translation: Paddle::Opponent.position(),
        scale: Paddle::Opponent.size(),
    }
}

#[test]
fn wall_geometry_matches_constants() {
    assert_eq!(WallLocation::Left.position(), Vec2i::new(-28500, 0));
    assert_eq!(WallLocation::Right.position(), Vec2i::new(28500, 0));
    assert_eq!(WallLocation::Top.position(), Vec2i::new(0, 18000));
    assert_eq!(WallLocation::Bottom.position(), Vec2i::new(0, -18000));
    assert_eq!(WallLocation::Left.size(), Vec2i::new(6000, 48000));
    assert_eq!(WallLocation::Top.size(), Vec2i::new(66000, 6000));
    assert_eq!(WallLocation::Left.inner(), Vec2i::new(-25500, 0));
    assert_eq!(WallLocation::Right.inner(), Vec2i::new(25500, 0));
    assert_eq!(WallLocation::Top.inner(), Vec2i::new(0, 15000));
    assert_eq!(WallLocation::Bottom.inner(), Vec2i::new(0, -15000));
}

#[test]
fn paddle_geometry_derived_from_walls() {
    assert_eq!(Paddle::Player.position(), Vec2i::new(-22500, 0));
    assert_eq!(Paddle::Opponent.position(), Vec2i::new(22500, 0));
    assert_eq!(Paddle::Player.size(), Vec2i::new(900, 6000));
    assert_eq!(Paddle::Opponent.size(), Vec2i::new(900, 6000));
}

#[test]
fn is_between_is_strict() {
    assert!(is_between(5, 10, 0));
    assert!(!is_between(10, 10, 0));
    assert!(!is_between(0, 10, 0));
    assert!(!is_between(-1, 10, 0));
}

#[test]
fn velocity_advances_position_exactly() {
    let mut t = transform(5, 7, 1500, 1500);
    apply_velocity(&mut t, &Vec2i::new(-3, 11));
    assert_eq!(t.translation, Vec2i::new(2, 18));
    assert_eq!(t.scale, Vec2i::new(1500, 1500));
    apply_velocity(&mut t, &Vec2i::new(0, 0));
    assert_eq!(t.translation, Vec2i::new(2, 18));
}

#[test]
fn player_moves_by_held_keys() {
    let mut t = transform(-22500, 100, 900, 6000);
    move_player(&mut t, true, false);
    assert_eq!(t.translation.y, 300);
    move_player(&mut t, false, true);
    assert_eq!(t.translation.y, 100);
    move_player(&mut t, false, false);
    assert_eq!(t.translation.y, 100);
    // Both keys held: "down" is checked last and wins.
    move_player(&mut t, true, true);
    assert_eq!(t.translation.y, -100);
    assert_eq!(t.translation.x, -22500);
}

#[test]
fn opponent_tracks_ball_sign() {
    let mut vel = Vec2i::new(0, 123);
    // Ball strictly above: fixed speed upward.
    move_opponent(&mut vel, 0, 500);
    assert_eq!(vel, Vec2i::new(0, 250));
    // Ball strictly below: fixed speed downward.
    move_opponent(&mut vel, 0, -500);
    assert_eq!(vel, Vec2i::new(0, -250));
    // Exactly level: previous velocity kept, no explicit stop.
    let mut held = Vec2i::new(0, 123);
    move_opponent(&mut held, 77, 77);
    assert_eq!(held, Vec2i::new(0, 123));
}

#[test]
fn right_crossing_scores_opponent_and_reflects() {
    // The example: ball at (490, 0) world units with a 25x25 scale crosses
    // the right wall's inner surface, so the opponent scores and the
    // horizontal velocity reflects. In subunits: center (29400, 0),
    // scale 1500, right edge 30150 past the inner surface 25500.
    let ball = transform(29400, 0, 1500, 1500);
    let mut vel = Vec2i::new(450, 0);
    let mut sb = Scoreboard::new();
    check_for_collisions(&mut vel, &ball, &player_paddle(), &opponent_paddle(), &mut sb);
    assert_eq!(sb.opponent_score, 1);
    assert_eq!(sb.player_score, 0);
    assert_eq!(vel, Vec2i::new(-450, 0));
}

#[test]
fn left_crossing_scores_player_only() {
    let ball = transform(-29400, 0, 1500, 1500);
    let mut vel = Vec2i::new(-450, 17);
    let mut sb = Scoreboard::new();
    check_for_collisions(&mut vel, &ball, &player_paddle(), &opponent_paddle(), &mut sb);
    assert_eq!(sb.player_score, 1);
    assert_eq!(sb.opponent_score, 0);
    assert_eq!(vel, Vec2i::new(450, 17));
}

#[test]
fn no_crossing_leaves_scores_alone() {
    let ball = transform(0, 0, 1500, 1500);
    let mut vel = Vec2i::new(-318, 318);
    let mut sb = Scoreboard::new();
    check_for_collisions(&mut vel, &ball, &player_paddle(), &opponent_paddle(), &mut sb);
    assert_eq!(sb.player_score, 0);
    assert_eq!(sb.opponent_score, 0);
    assert_eq!(vel, Vec2i::new(-318, 318));
}

#[test]
fn paddle_hit_reflects_horizontal_velocity() {
    // Ball whose left edge lies strictly inside the player paddle's span
    // and whose center is level with it.
    let ball = transform(-21800, 100, 1500, 1500);
    let mut vel = Vec2i::new(-318, 318);
    let mut sb = Scoreboard::new();
    check_for_collisions(&mut vel, &ball, &player_paddle(), &opponent_paddle(), &mut sb);
    assert_eq!(vel, Vec2i::new(318, 318));
    assert_eq!(sb.player_score, 0);
    assert_eq!(sb.opponent_score, 0);
}

#[test]
fn wall_bounce_reflects_vertical_velocity() {
    // Ball top edge 2*14500 + 1500 exceeds twice the top inner surface.
    let ball = transform(0, 14500, 1500, 1500);
    let mut vel = Vec2i::new(-318, 318);
    let mut sb = Scoreboard::new();
    check_for_collisions(&mut vel, &ball, &player_paddle(), &opponent_paddle(), &mut sb);
    assert_eq!(vel, Vec2i::new(-318, -318));
    // And symmetrically off the bottom.
    let ball = transform(0, -14500, 1500, 1500);
    check_for_collisions(&mut vel, &ball, &player_paddle(), &opponent_paddle(), &mut sb);
    assert_eq!(vel, Vec2i::new(-318, 318));
    assert_eq!(sb.player_score, 0);
    assert_eq!(sb.opponent_score, 0);
}

#[test]
fn double_reflection_restores_velocity_sign() {
    // A paddle placed past the right wall's inner surface makes one tick
    // both bounce off the paddle and cross the scoring boundary: the two
    // reflections cancel and the velocity sign is restored.
    let ball = transform(25250, 0, 1500, 1500);
    let paddle_beyond = transform(26000, 0, 900, 6000);
    let mut vel = Vec2i::new(450, 0);
    let mut sb = Scoreboard::new();
    check_for_collisions(&mut vel, &ball, &player_paddle(), &paddle_beyond, &mut sb);
    assert_eq!(vel, Vec2i::new(450, 0));
    assert_eq!(sb.opponent_score, 1);
    assert_eq!(sb.player_score, 0);
}

#[test]
fn opponent_paddle_hit_reflects() {
    // Ball right edge strictly inside the opponent paddle's span, center
    // level with the paddle: the symmetric test fires and reflects.
    let ball = transform(21900, -100, 1500, 1500);
    let mut vel = Vec2i::new(318, 50);
    let mut sb = Scoreboard::new();
    check_for_collisions(&mut vel, &ball, &player_paddle(), &opponent_paddle(), &mut sb);
    assert_eq!(vel, Vec2i::new(-318, 50));
    assert_eq!(sb.player_score, 0);
    assert_eq!(sb.opponent_score, 0);
}
