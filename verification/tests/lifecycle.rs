use pong::geom::Vec2i;
use pong::menu::Interaction;
use pong::menu::Rgb;
use pong::menu::button_color;
use pong::menu::quit_button_action;
use pong::menu::start_button_action;
use pong::scoreboard::Scoreboard;
use pong::scoreboard::get_score_str;
use pong::scoreboard::usize_to_decimal;
use pong::state::GameState;
use pong::state::StateError;
use pong::state::StateStack;
use pong::state::esc_to_menu;
use pong::state::pause_game;
use pong::world::EntityKind;
use pong::world::Game;

fn count_kind(game: &Game, kind: EntityKind) -> usize {
    game.entities.iter().filter(|e| e.kind == kind).count()
}

fn count_tagged(game: &Game) -> usize {
    game.entities.iter().filter(|e| e.game_tag).count()
}

#[test]
fn score_string_formats_both_lines() {
    let sb = Scoreboard::new();
    assert_eq!(get_score_str(&sb), "Player Score: 0\nComputer Score: 0");
    let sb = Scoreboard { player_score: 3, opponent_score: 12 };
    assert_eq!(get_score_str(&sb), "Player Score: 3\nComputer Score: 12");
    let sb = Scoreboard { player_score: usize::MAX, opponent_score: 100 };
    assert_eq!(
        get_score_str(&sb),
        format!("Player Score: {}\nComputer Score: {}", usize::MAX, 100usize)
    );
}

#[test]
fn decimal_formatting_matches_std() {
    assert_eq!(usize_to_decimal(0), "0");
    assert_eq!(usize_to_decimal(9), "9");
    assert_eq!(usize_to_decimal(10), "10");
    assert_eq!(usize_to_decimal(909), "909");
    assert_eq!(usize_to_decimal(usize::MAX), format!("{}", usize::MAX));
}

#[test]
fn state_stack_set_push_pop() {
    let mut s = StateStack::new(GameState::MainMenu);
    assert_eq!(s.current(), GameState::MainMenu);
    // Setting the current state again is rejected.
    assert_eq!(s.set(GameState::MainMenu), Err(StateError::AlreadyInState));
    assert_eq!(s.set(GameState::InGame), Ok(()));
    assert_eq!(s.current(), GameState::InGame);
    // Pushing suspends the state below.
    assert_eq!(s.push(GameState::Paused), Ok(()));
    assert_eq!(s.current(), GameState::Paused);
    assert_eq!(s.push(GameState::Paused), Err(StateError::AlreadyInState));
    assert_eq!(s.pop(), Ok(()));
    assert_eq!(s.current(), GameState::InGame);
    // Popping the last state is rejected.
    assert_eq!(s.pop(), Err(StateError::StackEmpty));
}

#[test]
fn pause_input_pushes_and_pops() {
    let mut s = StateStack::new(GameState::InGame);
    assert!(pause_game(&mut s, true));
    assert_eq!(s.current(), GameState::Paused);
    assert!(pause_game(&mut s, true));
    assert_eq!(s.current(), GameState::InGame);
    assert!(!pause_game(&mut s, false));
    assert_eq!(s.current(), GameState::InGame);
    let mut menu = StateStack::new(GameState::MainMenu);
    assert!(!pause_game(&mut menu, true));
    assert_eq!(menu.current(), GameState::MainMenu);
}

#[test]
fn escape_returns_to_menu() {
    let mut s = StateStack::new(GameState::InGame);
    assert!(!esc_to_menu(&mut s, false));
    assert_eq!(s.current(), GameState::InGame);
    assert!(esc_to_menu(&mut s, true));
    assert_eq!(s.current(), GameState::MainMenu);
}

#[test]
fn button_visual_states() {
    assert_eq!(button_color(&Interaction::Pressed), Rgb { red: 900, green: 900, blue: 100 });
    assert_eq!(button_color(&Interaction::Hovered), Rgb { red: 900, green: 100, blue: 100 });
    assert_eq!(button_color(&Interaction::Idle), Rgb { red: 150, green: 150, blue: 150 });
}

#[test]
fn button_actions_dispatch_on_press() {
    let mut s = StateStack::new(GameState::MainMenu);
    assert!(!start_button_action(&Interaction::Hovered, &mut s));
    assert_eq!(s.current(), GameState::MainMenu);
    assert!(start_button_action(&Interaction::Pressed, &mut s));
    assert_eq!(s.current(), GameState::InGame);
    assert!(quit_button_action(&Interaction::Pressed));
    assert!(!quit_button_action(&Interaction::Hovered));
    assert!(!quit_button_action(&Interaction::Idle));
}

#[test]
fn session_lifecycle_end_to_end() {
    let mut game = Game::new();
    assert_eq!(game.current_state(), GameState::MainMenu);
    assert_eq!(game.entities.len(), 2);
    assert_eq!(count_kind(&game, EntityKind::StartButton), 1);
    assert_eq!(count_kind(&game, EntityKind::QuitButton), 1);
    assert_eq!(count_tagged(&game), 0);

    // Clicking start enters play and creates the full session.
    game.click_start();
    assert_eq!(game.current_state(), GameState::InGame);
    assert_eq!(game.entities.len(), 8);
    assert_eq!(count_kind(&game, EntityKind::Ball), 1);
    assert_eq!(
        count_kind(&game, EntityKind::PlayerPaddle) + count_kind(&game, EntityKind::OpponentPaddle),
        2
    );
    assert_eq!(count_kind(&game, EntityKind::Wall), 4);
    assert_eq!(count_kind(&game, EntityKind::ScoreText), 1);
    assert_eq!(count_tagged(&game), 8);
    assert_eq!(game.score_display, "Player Score: 0\nComputer Score: 0");
    let ball_before = game.entities[0].transform.translation;

    // Pausing pushes the overlay: same entities, nothing advances.
    assert!(game.press_pause(true));
    assert_eq!(game.current_state(), GameState::Paused);
    assert_eq!(game.entities.len(), 8);
    assert_eq!(game.entities[0].transform.translation, ball_before);

    // Pausing again pops back into play and movement resumes.
    assert!(game.press_pause(true));
    assert_eq!(game.current_state(), GameState::InGame);
    assert_eq!(game.entities[0].transform.translation, ball_before);
    game.tick(false, false);
    let moved = game.entities[0].transform.translation;
    assert_ne!(moved, ball_before);
    assert_eq!(moved, Vec2i::new(-318, 318));

    // The back input destroys the session and returns to the menu.
    assert!(game.press_escape(true));
    assert_eq!(game.current_state(), GameState::MainMenu);
    assert_eq!(count_tagged(&game), 0);
    assert_eq!(game.entities.len(), 2);
}

#[test]
fn one_tick_moves_every_tracked_entity() {
    let mut game = Game::new();
    game.click_start();
    game.tick(true, false);
    // Ball advanced by exactly its initial velocity.
    assert_eq!(game.entities[0].transform.translation, Vec2i::new(-318, 318));
    assert_eq!(game.entities[0].velocity, Some(Vec2i::new(-318, 318)));
    // Player paddle moved up by its per-tick displacement.
    assert_eq!(game.entities[1].transform.translation, Vec2i::new(-22500, 200));
    // The ball started exactly level with the opponent, so the opponent
    // kept its previous upward velocity and moved by it.
    assert_eq!(game.entities[2].velocity, Some(Vec2i::new(0, 250)));
    assert_eq!(game.entities[2].transform.translation, Vec2i::new(22500, 250));
    // No collision at center: scores untouched, display rebuilt.
    assert_eq!(game.scoreboard.player_score, 0);
    assert_eq!(game.scoreboard.opponent_score, 0);
    assert_eq!(game.score_display, "Player Score: 0\nComputer Score: 0");
}

#[test]
fn scores_persist_across_menu_round_trip() {
    let mut game = Game::new();
    game.click_start();
    game.scoreboard = Scoreboard { player_score: 2, opponent_score: 5 };
    game.press_escape(true);
    assert_eq!(game.current_state(), GameState::MainMenu);
    // Re-entering play does not reset the scoreboard.
    game.click_start();
    assert_eq!(game.scoreboard.player_score, 2);
    assert_eq!(game.scoreboard.opponent_score, 5);
    assert_eq!(game.score_display, "Player Score: 2\nComputer Score: 5");
}

#[test]
fn tick_scores_and_refreshes_display() {
    let mut game = Game::new();
    game.click_start();
    // Park the ball just outside the right scoring boundary.
    game.entities[0].transform.translation = Vec2i::new(29400, 0);
    game.tick(false, false);
    assert_eq!(game.scoreboard.opponent_score, 1);
    assert_eq!(game.scoreboard.player_score, 0);
    assert_eq!(game.score_display, "Player Score: 0\nComputer Score: 1");
    // The horizontal velocity reflected; no paddle was in the way.
    assert_eq!(game.entities[0].velocity, Some(Vec2i::new(318, 318)));
}
