//! The entity store and the whole-game model.
//!
//! A minimal entity store models the host engine's scene: entities carry a
//! kind, an optional session tag, a transform and an optional velocity.
//! While in play, exactly one ball, one player paddle, one opponent paddle,
//! four walls and one score text entity exist, all tagged as session
//! entities; in the menu, exactly the two buttons exist, untagged. The
//! `Game` type threads the state stack, the scoreboard, the entity store
//! and the score display string through the per-frame and per-transition
//! rules.

use vstd::prelude::*;

use crate::collision::check_for_collisions;
use crate::collision::collide_vel_x;
use crate::collision::collide_vel_y;
use crate::collision::opponent_score_delta;
use crate::collision::player_score_delta;
use crate::geom::BALL_SIZE;
use crate::geom::INITIAL_BALL_VELOCITY_X;
use crate::geom::INITIAL_BALL_VELOCITY_Y;
use crate::geom::OPPONENT_VELOCITY;
use crate::geom::Paddle;
use crate::geom::Transform2;
use crate::geom::Vec2i;
use crate::geom::WallLocation;
use crate::geom::paddle_position;
use crate::geom::paddle_size;
use crate::geom::wall_position;
use crate::geom::wall_size;
use crate::motion::apply_velocity;
use crate::motion::move_opponent;
use crate::motion::move_player;
use crate::motion::opponent_tracking_velocity;
use crate::motion::player_step;
use crate::menu::Interaction;
use crate::menu::start_button_action;
use crate::scoreboard::Scoreboard;
use crate::scoreboard::get_score_str;
use crate::scoreboard::score_text;
use crate::state::GameState;
use crate::state::StateStack;
use crate::state::esc_to_menu;
use crate::state::pause_game;
use crate::state::pause_transition;

verus! {

/// What an entity is: the play-session entities, and the two menu buttons.
#[derive(Clone, Copy, PartialEq, Eq, Structural, Debug)]
pub enum EntityKind {
    Ball,
    PlayerPaddle,
    OpponentPaddle,
    Wall,
    ScoreText,
    StartButton,
    QuitButton,
}

/// One entity of the scene: a kind, the session tag (for bulk teardown),
/// a transform, and a velocity for the entities that move by integration.
#[derive(Clone, Copy, Debug)]
pub struct Entity {
    pub kind: EntityKind,
    pub game_tag: bool,
    pub transform: Transform2,
    pub velocity: Option<Vec2i>,
}

/// How many entities of a sequence satisfy a predicate.
pub open spec fn count_where(s: Seq<Entity>, p: spec_fn(Entity) -> bool) -> nat
    decreases s.len(),
{
    if s.len() == 0 {
        0
    } else {
        count_where(s.drop_last(), p) + if p(s.last()) {
            1nat
        } else {
            0nat
        }
    }
}

/// The entities of a sequence that do not satisfy a predicate, in order.
pub open spec fn remove_where(s: Seq<Entity>, p: spec_fn(Entity) -> bool) -> Seq<Entity>
    decreases s.len(),
{
    if s.len() == 0 {
        Seq::empty()
    } else if p(s.last()) {
        remove_where(s.drop_last(), p)
    } else {
        remove_where(s.drop_last(), p).push(s.last())
    }
}

/// The predicate for entities of a given kind.
pub open spec fn kind_pred(k: EntityKind) -> spec_fn(Entity) -> bool {
    |e: Entity| e.kind == k
}

/// The predicate for session-tagged entities.
pub open spec fn tagged_pred() -> spec_fn(Entity) -> bool {
    |e: Entity| e.game_tag
}

/// The predicate for menu buttons.
pub open spec fn button_pred() -> spec_fn(Entity) -> bool {
    |e: Entity| e.kind == EntityKind::StartButton || e.kind == EntityKind::QuitButton
}

/// How many entities of a given kind a sequence holds.
pub open spec fn count_kind(s: Seq<Entity>, k: EntityKind) -> nat {
    count_where(s, kind_pred(k))
}

/// How many session-tagged entities a sequence holds.
pub open spec fn count_tagged(s: Seq<Entity>) -> nat {
    count_where(s, tagged_pred())
}

/// When every entity of a sequence satisfies the predicate, removing them
/// leaves the empty sequence.
pub proof fn lemma_remove_where_all(s: Seq<Entity>, p: spec_fn(Entity) -> bool)
    requires
        forall|i: int| 0 <= i < s.len() ==> p(#[trigger] s[i]),
    ensures
        remove_where(s, p) =~= Seq::<Entity>::empty(),
    decreases s.len(),
{
    if s.len() > 0 {
        assert(p(s.last()));
        lemma_remove_where_all(s.drop_last(), p);
    }
}

/// The ball as freshly served: centered, square, moving toward the player
/// side and upward.
pub open spec fn initial_ball_entity() -> Entity {
    Entity {
        kind: EntityKind::Ball,
        game_tag: true,
        transform: Transform2 {
            translation: Vec2i { x: 0, y: 0 },
            scale: Vec2i { x: BALL_SIZE, y: BALL_SIZE },
        },
        velocity: Some(Vec2i { x: INITIAL_BALL_VELOCITY_X, y: INITIAL_BALL_VELOCITY_Y }),
    }
}

/// The player paddle at its resting position; it carries no velocity.
pub open spec fn initial_player_entity() -> Entity {
    Entity {
        kind: EntityKind::PlayerPaddle,
        game_tag: true,
        transform: Transform2 {
            translation: paddle_position(Paddle::Player),
            scale: paddle_size(Paddle::Player),
        },
        velocity: None,
    }
}

/// The opponent paddle at its resting position, starting upward at its
/// tracking speed.
pub open spec fn initial_opponent_entity() -> Entity {
    Entity {
        kind: EntityKind::OpponentPaddle,
        game_tag: true,
        transform: Transform2 {
            translation: paddle_position(Paddle::Opponent),
            scale: paddle_size(Paddle::Opponent),
        },
        velocity: Some(Vec2i { x: 0, y: OPPONENT_VELOCITY }),
    }
}

/// The score text node; its string content lives in `Game::score_display`.
pub open spec fn score_text_entity() -> Entity {
    Entity {
        kind: EntityKind::ScoreText,
        game_tag: true,
        transform: Transform2 {
            translation: Vec2i { x: 0, y: 0 },
            scale: Vec2i { x: 0, y: 0 },
        },
        velocity: None,
    }
}

/// A wall at its computed position and size; walls never move.
pub open spec fn wall_entity(loc: WallLocation) -> Entity {
    Entity {
        kind: EntityKind::Wall,
        game_tag: true,
        transform: Transform2 { translation: wall_position(loc), scale: wall_size(loc) },
        velocity: None,
    }
}

/// The full entity set of a play session, in spawn order.
pub open spec fn initial_play_entities() -> Seq<Entity> {
    seq![
        initial_ball_entity(),
        initial_player_entity(),
        initial_opponent_entity(),
        score_text_entity(),
        wall_entity(WallLocation::Left),
        wall_entity(WallLocation::Right),
        wall_entity(WallLocation::Top),
        wall_entity(WallLocation::Bottom),
    ]
}

/// A menu button entity; buttons carry no session tag, so they survive a
/// session teardown and are removed by their own teardown instead.
pub open spec fn button_entity(k: EntityKind) -> Entity {
    Entity {
        kind: k,
        game_tag: false,
        transform: Transform2 {
            translation: Vec2i { x: 0, y: 0 },
            scale: Vec2i { x: 0, y: 0 },
        },
        velocity: None,
    }
}

/// The entity set of the main menu: the start button and the quit button.
pub open spec fn initial_menu_entities() -> Seq<Entity> {
    seq![button_entity(EntityKind::StartButton), button_entity(EntityKind::QuitButton)]
}

/// The shape of the entity store while the menu is showing.
pub open spec fn menu_layout(s: Seq<Entity>) -> bool {
    s =~= initial_menu_entities()
}

/// The shape of the entity store while a play session exists: exactly one
/// ball, one player paddle, one opponent paddle, one score text and the
/// four walls, all session-tagged, in spawn order. The moving entities
/// carry velocities; the walls stand exactly where they were spawned.
pub open spec fn play_layout(s: Seq<Entity>) -> bool {
    &&& s.len() == 8
    &&& s[0].kind == EntityKind::Ball && s[0].game_tag && s[0].velocity is Some
    &&& s[1].kind == EntityKind::PlayerPaddle && s[1].game_tag
    &&& s[2].kind == EntityKind::OpponentPaddle && s[2].game_tag && s[2].velocity is Some
    &&& s[3].kind == EntityKind::ScoreText && s[3].game_tag
    &&& s[4] == wall_entity(WallLocation::Left)
    &&& s[5] == wall_entity(WallLocation::Right)
    &&& s[6] == wall_entity(WallLocation::Top)
    &&& s[7] == wall_entity(WallLocation::Bottom)
}

/// Spawning a play session gives one ball, two paddles, four walls and one
/// score text, all tagged; the menu set holds no tagged entity at all.
pub proof fn lemma_initial_entity_counts()
    ensures
        count_kind(initial_play_entities(), EntityKind::Ball) == 1,
        count_kind(initial_play_entities(), EntityKind::PlayerPaddle) == 1,
        count_kind(initial_play_entities(), EntityKind::OpponentPaddle) == 1,
        count_kind(initial_play_entities(), EntityKind::Wall) == 4,
        count_kind(initial_play_entities(), EntityKind::ScoreText) == 1,
        count_tagged(initial_play_entities()) == 8,
        count_tagged(initial_menu_entities()) == 0,
{
    reveal_with_fuel(count_where, 10);
}

/// Build the entity record of one wall from its location.
pub fn wall_bundle(loc: WallLocation) -> (e: Entity)
    ensures
        e == wall_entity(loc),
{
    Entity {
        kind: EntityKind::Wall,
        game_tag: true,
        transform: Transform2 { translation: loc.position(), scale: loc.size() },
        velocity: None,
    }
}

/// Spawn the full entity set of a play session into the store and return
/// the initial score display string for the current scoreboard.
pub fn game_setup(entities: &mut Vec<Entity>, scoreboard: &Scoreboard) -> (display: String)
    ensures
        final(entities)@ =~= old(entities)@ + initial_play_entities(),
        display@ == score_text(scoreboard.player_score as nat, scoreboard.opponent_score as nat),
{
    entities.push(
        Entity {
            kind: EntityKind::Ball,
            game_tag: true,
            transform: Transform2 {
                translation: Vec2i { x: 0, y: 0 },
                scale: Vec2i { x: BALL_SIZE, y: BALL_SIZE },
            },
            velocity: Some(Vec2i { x: INITIAL_BALL_VELOCITY_X, y: INITIAL_BALL_VELOCITY_Y }),
        },
    );
    let player = Paddle::Player;
    entities.push(
        Entity {
            kind: EntityKind::PlayerPaddle,
            game_tag: true,
            transform: Transform2 { translation: player.position(), scale: player.size() },
            velocity: None,
        },
    );
    let opponent = Paddle::Opponent;
    entities.push(
        Entity {
            kind: EntityKind::OpponentPaddle,
            game_tag: true,
            transform: Transform2 { translation: opponent.position(), scale: opponent.size() },
            velocity: Some(Vec2i { x: 0, y: OPPONENT_VELOCITY }),
        },
    );
    let display = get_score_str(scoreboard);
    entities.push(
        Entity {
            kind: EntityKind::ScoreText,
            game_tag: true,
            transform: Transform2 {
                translation: Vec2i { x: 0, y: 0 },
                scale: Vec2i { x: 0, y: 0 },
            },
            velocity: None,
        },
    );
    entities.push(wall_bundle(WallLocation::Left));
    entities.push(wall_bundle(WallLocation::Right));
    entities.push(wall_bundle(WallLocation::Top));
    entities.push(wall_bundle(WallLocation::Bottom));
    display
}

/// Spawn the two menu buttons into the store.
pub fn setup_menu(entities: &mut Vec<Entity>)
    ensures
        final(entities)@ =~= old(entities)@ + initial_menu_entities(),
{
    entities.push(
        Entity {
            kind: EntityKind::StartButton,
            game_tag: false,
            transform: Transform2 {
                translation: Vec2i { x: 0, y: 0 },
                scale: Vec2i { x: 0, y: 0 },
            },
            velocity: None,
        },
    );
    entities.push(
        Entity {
            kind: EntityKind::QuitButton,
            game_tag: false,
            transform: Transform2 {
                translation: Vec2i { x: 0, y: 0 },
                scale: Vec2i { x: 0, y: 0 },
            },
            velocity: None,
        },
    );
}

/// Bulk-destroy every session-tagged entity, keeping the rest in order.
pub fn teardown_ingame(entities: &mut Vec<Entity>)
    ensures
        final(entities)@ =~= remove_where(old(entities)@, tagged_pred()),
{
    let mut kept: Vec<Entity> = Vec::new();
    let mut i: usize = 0;
    while i < entities.len()
        invariant
            i <= entities@.len(),
            entities@ == old(entities)@,
            kept@ =~= remove_where(entities@.subrange(0, i as int), tagged_pred()),
        decreases entities@.len() - i,
    {
        let e = entities[i];
        if !e.game_tag {
            kept.push(e);
        }
        proof {
            assert(entities@.subrange(0, i + 1 as int).drop_last() =~= entities@.subrange(
                0,
                i as int,
            ));
            assert(entities@.subrange(0, i + 1 as int).last() == entities@[i as int]);
        }
        i = i + 1;
    }
    proof {
        assert(entities@.subrange(0, entities@.len() as int) =~= entities@);
    }
    *entities = kept;
}

/// Destroy the menu buttons, keeping everything else in order.
pub fn teardown_main_menu(entities: &mut Vec<Entity>)
    ensures
        final(entities)@ =~= remove_where(old(entities)@, button_pred()),
{
    let mut kept: Vec<Entity> = Vec::new();
    let mut i: usize = 0;
    while i < entities.len()
        invariant
            i <= entities@.len(),
            entities@ == old(entities)@,
            kept@ =~= remove_where(entities@.subrange(0, i as int), button_pred()),
        decreases entities@.len() - i,
    {
        let e = entities[i];
        if !(matches!(e.kind, EntityKind::StartButton) || matches!(
            e.kind,
            EntityKind::QuitButton,
        )) {
            kept.push(e);
        }
        proof {
            assert(entities@.subrange(0, i + 1 as int).drop_last() =~= entities@.subrange(
                0,
                i as int,
            ));
            assert(entities@.subrange(0, i + 1 as int).last() == entities@[i as int]);
        }
        i = i + 1;
    }
    proof {
        assert(entities@.subrange(0, entities@.len() as int) =~= entities@);
    }
    *entities = kept;
}

/// Rebuild the score display string from the scoreboard.
pub fn update_score(display: &mut String, scoreboard: &Scoreboard)
    ensures
        final(display)@ == score_text(
            scoreboard.player_score as nat,
            scoreboard.opponent_score as nat,
        ),
{
    *display = get_score_str(scoreboard);
}


/// The whole game: the state stack, the scoreboard, the entity store and
/// the score display string, threaded through every per-frame rule.
pub struct Game {
    pub states: StateStack,
    pub scoreboard: Scoreboard,
    pub entities: Vec<Entity>,
    pub score_display: String,
}

/// A transform advanced by one tick of a velocity.
pub open spec fn moved_by(t: Transform2, vx: int, vy: int) -> Transform2 {
    Transform2 {
        translation: Vec2i { x: (t.translation.x + vx) as i64, y: (t.translation.y + vy) as i64 },
        scale: t.scale,
    }
}

impl Game {
    /// Reachable shapes of the game: the stack is the menu, play, or play
    /// with the pause overlay pushed on top, and the entity store has the
    /// matching layout.
    pub open spec fn wf(self) -> bool {
        &&& self.states.wf()
        &&& (self.states.stack@ =~= seq![GameState::MainMenu] || self.states.stack@ =~= seq![
            GameState::InGame,
        ] || self.states.stack@ =~= seq![GameState::InGame, GameState::Paused])
        &&& (self.states.current_spec() == GameState::MainMenu ==> menu_layout(self.entities@))
        &&& (self.states.current_spec() != GameState::MainMenu ==> play_layout(self.entities@))
    }

    /// The current screen: the top of the state stack.
    pub open spec fn current_spec(self) -> GameState {
        self.states.current_spec()
    }

    /// Read the current screen.
    pub fn current_state(&self) -> (s: GameState)
        requires
            self.wf(),
        ensures
            s == self.current_spec(),
    {
        self.states.current()
    }

    /// A fresh game: showing the main menu, both scores zero, and only the
    /// two menu buttons in the scene.
    pub fn new() -> (g: Game)
        ensures
            g.wf(),
            g.current_spec() == GameState::MainMenu,
            g.scoreboard.player_score == 0,
            g.scoreboard.opponent_score == 0,
            g.entities@ =~= initial_menu_entities(),
    {
        let states = StateStack::new(GameState::MainMenu);
        let scoreboard = Scoreboard::new();
        let mut entities: Vec<Entity> = Vec::new();
        setup_menu(&mut entities);
        proof {
            assert(entities@ =~= initial_menu_entities());
        }
        Game { states, scoreboard, entities, score_display: String::new() }
    }
}

/// Effect of the frame in which the start button is clicked: the state
/// becomes play, the menu is torn down, the full play entity set is
/// spawned, and the display string is regenerated; the scoreboard is not
/// reset.
pub open spec fn click_start_rel(pre: Game, post: Game) -> bool {
    &&& post.states.stack@ == pre.states.stack@.update(
        pre.states.stack@.len() - 1,
        GameState::InGame,
    )
    &&& post.scoreboard == pre.scoreboard
    &&& post.entities@ =~= remove_where(pre.entities@, button_pred()) + initial_play_entities()
    &&& post.score_display@ == score_text(
        pre.scoreboard.player_score as nat,
        pre.scoreboard.opponent_score as nat,
    )
}

/// Effect of one pause input: only the state stack moves, by the pause
/// transition; entities, scoreboard and display are untouched, so a paused
/// game keeps its session exactly as it was.
pub open spec fn pause_rel(pre: Game, post: Game, space_pressed: bool) -> bool {
    &&& post.states.stack@ =~= pause_transition(pre.states.stack@, space_pressed)
    &&& post.scoreboard == pre.scoreboard
    &&& post.entities@ == pre.entities@
    &&& post.score_display == pre.score_display
}

/// Effect of the back-to-menu input during play: a real state change to
/// the menu, every session-tagged entity destroyed, the menu rebuilt; the
/// scoreboard persists.
pub open spec fn escape_rel(pre: Game, post: Game, esc_just_pressed: bool) -> bool {
    if esc_just_pressed {
        &&& post.states.stack@ == pre.states.stack@.update(
            pre.states.stack@.len() - 1,
            GameState::MainMenu,
        )
        &&& post.scoreboard == pre.scoreboard
        &&& post.entities@ =~= remove_where(pre.entities@, tagged_pred())
            + initial_menu_entities()
        &&& post.score_display == pre.score_display
    } else {
        &&& post.states.stack@ == pre.states.stack@
        &&& post.scoreboard == pre.scoreboard
        &&& post.entities@ == pre.entities@
        &&& post.score_display == pre.score_display
    }
}

impl Game {
    /// The start button was clicked in the menu: enter play and build the
    /// session.
    pub fn click_start(&mut self)
        requires
            old(self).wf(),
            old(self).current_spec() == GameState::MainMenu,
        ensures
            final(self).wf(),
            click_start_rel(*old(self), *final(self)),
            final(self).current_spec() == GameState::InGame,
    {
        let interaction = Interaction::Pressed;
        let _started = start_button_action(&interaction, &mut self.states);
        teardown_main_menu(&mut self.entities);
        let display = game_setup(&mut self.entities, &self.scoreboard);
        self.score_display = display;
        proof {
            assert forall|i: int| 0 <= i < old(self).entities@.len() implies button_pred()(
                #[trigger] old(self).entities@[i],
            ) by {
                assert(old(self).entities@ =~= initial_menu_entities());
            }
            lemma_remove_where_all(old(self).entities@, button_pred());
            assert(self.entities@ =~= initial_play_entities());
            assert(self.states.stack@ =~= seq![GameState::InGame]);
        }
    }

    /// One pause input: push the pause overlay during play, pop it when
    /// paused, ignore it in the menu. Returns whether the key must be
    /// reset.
    pub fn press_pause(&mut self, space_pressed: bool) -> (reset_key: bool)
        requires
            old(self).wf(),
        ensures
            final(self).wf(),
            pause_rel(*old(self), *final(self), space_pressed),
            reset_key == (space_pressed && old(self).current_spec() != GameState::MainMenu),
    {
        let reset = pause_game(&mut self.states, space_pressed);
        proof {
            if space_pressed && old(self).current_spec() == GameState::InGame {
                assert(self.states.stack@ =~= seq![GameState::InGame, GameState::Paused]);
            }
            if space_pressed && old(self).current_spec() == GameState::Paused {
                assert(self.states.stack@ =~= seq![GameState::InGame]);
            }
        }
        reset
    }

    /// The back input during play: return to the menu, tearing the session
    /// down. Returns whether the key must be reset.
    pub fn press_escape(&mut self, esc_just_pressed: bool) -> (reset_key: bool)
        requires
            old(self).wf(),
            old(self).current_spec() == GameState::InGame,
        ensures
            final(self).wf(),
            escape_rel(*old(self), *final(self), esc_just_pressed),
            reset_key == esc_just_pressed,
    {
        let reset = esc_to_menu(&mut self.states, esc_just_pressed);
        if reset {
            teardown_ingame(&mut self.entities);
            setup_menu(&mut self.entities);
            proof {
                assert forall|i: int| 0 <= i < old(self).entities@.len() implies tagged_pred()(
                    #[trigger] old(self).entities@[i],
                ) by {
                    assert(play_layout(old(self).entities@));
                }
                lemma_remove_where_all(old(self).entities@, tagged_pred());
                assert(self.entities@ =~= initial_menu_entities());
                assert(self.states.stack@ =~= seq![GameState::MainMenu]);
            }
        }
        reset
    }
}

impl Game {
    /// The machine-limit bounds one tick needs: every position advanced
    /// this tick stays representable, reflections of the ball's velocity
    /// fit, and the counters can still grow.
    pub open spec fn tick_enabled(self, up_held: bool, down_held: bool) -> bool {
        let ball = self.entities@[0];
        let player = self.entities@[1];
        let opp = self.entities@[2];
        let bv = ball.velocity->Some_0;
        let ov = opp.velocity->Some_0;
        let new_ovy = opponent_tracking_velocity(
            ov.y as int,
            ball.transform.translation.y as int,
            opp.transform.translation.y as int,
        );
        &&& i64::MIN <= ball.transform.translation.x + bv.x <= i64::MAX
        &&& i64::MIN <= ball.transform.translation.y + bv.y <= i64::MAX
        &&& i64::MIN <= player.transform.translation.y + player_step(up_held, down_held)
            <= i64::MAX
        &&& i64::MIN <= opp.transform.translation.x + ov.x <= i64::MAX
        &&& i64::MIN <= opp.transform.translation.y + new_ovy <= i64::MAX
        &&& bv.x > i64::MIN
        &&& bv.y > i64::MIN
        &&& self.scoreboard.player_score < usize::MAX
        &&& self.scoreboard.opponent_score < usize::MAX
    }
}

/// Effect of one simulation tick during play: the player paddle moves by
/// its input displacement, the opponent retargets and moves, the ball
/// advances by exactly its velocity, the collision pass reflects the
/// velocity and credits crossings, and the display string is regenerated
/// from the updated scoreboard.
pub open spec fn tick_rel(pre: Game, post: Game, up_held: bool, down_held: bool) -> bool {
    let ball0 = pre.entities@[0];
    let player0 = pre.entities@[1];
    let opp0 = pre.entities@[2];
    let bv0 = ball0.velocity->Some_0;
    let ov0 = opp0.velocity->Some_0;
    let moved_ball = moved_by(ball0.transform, bv0.x as int, bv0.y as int);
    let moved_player = moved_by(player0.transform, 0, player_step(up_held, down_held));
    let new_ovy = opponent_tracking_velocity(
        ov0.y as int,
        ball0.transform.translation.y as int,
        opp0.transform.translation.y as int,
    );
    let moved_opp = moved_by(opp0.transform, ov0.x as int, new_ovy);
    let new_bvx = collide_vel_x(moved_ball, moved_player, moved_opp, bv0.x as int);
    let new_bvy = collide_vel_y(moved_ball, bv0.y as int);
    &&& post.states.stack@ == pre.states.stack@
    &&& post.entities@.len() == pre.entities@.len()
    &&& post.entities@[0] == (Entity {
        transform: moved_ball,
        velocity: Some(Vec2i { x: new_bvx as i64, y: new_bvy as i64 }),
        ..ball0
    })
    &&& post.entities@[1] == (Entity { transform: moved_player, ..player0 })
    &&& post.entities@[2] == (Entity {
        transform: moved_opp,
        velocity: Some(Vec2i { x: ov0.x, y: new_ovy as i64 }),
        ..opp0
    })
    &&& (forall|i: int|
        3 <= i < pre.entities@.len() ==> post.entities@[i] == #[trigger] pre.entities@[i])
    &&& post.scoreboard.player_score == pre.scoreboard.player_score + player_score_delta(
        moved_ball,
    )
    &&& post.scoreboard.opponent_score == pre.scoreboard.opponent_score + opponent_score_delta(
        moved_ball,
    )
    &&& post.score_display@ == score_text(
        post.scoreboard.player_score as nat,
        post.scoreboard.opponent_score as nat,
    )
}

impl Game {
    /// One fixed-timestep simulation tick while playing. Order within the
    /// tick: player input displacement, opponent retargeting, velocity
    /// integration for the ball and the opponent, then the collision and
    /// scoring pass, then the score display refresh.
    pub fn tick(&mut self, up_held: bool, down_held: bool)
        requires
            old(self).wf(),
            old(self).current_spec() == GameState::InGame,
            old(self).tick_enabled(up_held, down_held),
        ensures
            final(self).wf(),
            tick_rel(*old(self), *final(self), up_held, down_held),
    {
        // Player paddle: direct displacement from the held keys.
        let mut player = self.entities[1];
        let mut player_t = player.transform;
        move_player(&mut player_t, up_held, down_held);
        player.transform = player_t;
        self.entities[1] = player;

        // Opponent paddle: retarget, then integrate with the new velocity.
        let ball_y = self.entities[0].transform.translation.y;
        let mut opp = self.entities[2];
        let mut opp_vel = opp.velocity.unwrap();
        move_opponent(&mut opp_vel, opp.transform.translation.y, ball_y);
        let mut opp_t = opp.transform;
        apply_velocity(&mut opp_t, &opp_vel);
        opp.transform = opp_t;
        opp.velocity = Some(opp_vel);
        self.entities[2] = opp;

        // Ball: integrate with its current velocity.
        let mut ball = self.entities[0];
        let ball_vel = ball.velocity.unwrap();
        let mut ball_t = ball.transform;
        apply_velocity(&mut ball_t, &ball_vel);
        ball.transform = ball_t;

        // Collisions and scoring against the moved transforms.
        let mut new_vel = ball_vel;
        check_for_collisions(
            &mut new_vel,
            &ball.transform,
            &player.transform,
            &opp.transform,
            &mut self.scoreboard,
        );
        ball.velocity = Some(new_vel);
        self.entities[0] = ball;

        // Mirror the scoreboard into the display string.
        update_score(&mut self.score_display, &self.scoreboard);
    }
}

/// Integration is linear: one tick advances the ball's position by exactly
/// its velocity on both axes, whatever the collision pass later does to the
/// velocity itself; the opponent paddle likewise advances by exactly the
/// velocity the tracking rule gave it this tick.
pub proof fn lemma_tick_advances_by_velocity(pre: Game, post: Game, up_held: bool, down_held: bool)
    requires
        tick_rel(pre, post, up_held, down_held),
        pre.tick_enabled(up_held, down_held),
    ensures
        post.entities@[0].transform.translation.x == pre.entities@[0].transform.translation.x
            + pre.entities@[0].velocity->Some_0.x,
        post.entities@[0].transform.translation.y == pre.entities@[0].transform.translation.y
            + pre.entities@[0].velocity->Some_0.y,
        post.entities@[2].transform.translation.x == pre.entities@[2].transform.translation.x
            + pre.entities@[2].velocity->Some_0.x,
        post.entities@[2].transform.translation.y == pre.entities@[2].transform.translation.y
            + opponent_tracking_velocity(
            pre.entities@[2].velocity->Some_0.y as int,
            pre.entities@[0].transform.translation.y as int,
            pre.entities@[2].transform.translation.y as int,
        ),
{
}

/// Across one tick the two counters together grow by at most one point,
/// and a single crossing can never credit both sides.
pub proof fn lemma_tick_scores_at_most_one(pre: Game, post: Game, up_held: bool, down_held: bool)
    requires
        tick_rel(pre, post, up_held, down_held),
    ensures
        post.scoreboard.player_score + post.scoreboard.opponent_score
            <= pre.scoreboard.player_score + pre.scoreboard.opponent_score + 1,
        post.scoreboard.player_score == pre.scoreboard.player_score
            || post.scoreboard.opponent_score == pre.scoreboard.opponent_score,
{
}

/// End-to-end session lifecycle. Starting in the menu: clicking start
/// enters play and creates exactly one ball, one player paddle, one
/// opponent paddle, four walls and one score text; a pause input pushes the
/// pause overlay and leaves every entity exactly as it was (no system
/// advances the ball while paused); a second pause input pops back into
/// play, entities still unchanged, so movement resumes from the same state;
/// the back input returns to the menu and leaves zero session-tagged
/// entities.
pub proof fn lemma_session_lifecycle(
    menu: Game,
    playing: Game,
    paused: Game,
    resumed: Game,
    ended: Game,
)
    requires
        menu.wf(),
        menu.current_spec() == GameState::MainMenu,
        click_start_rel(menu, playing),
        pause_rel(playing, paused, true),
        pause_rel(paused, resumed, true),
        escape_rel(resumed, ended, true),
    ensures
        playing.current_spec() == GameState::InGame,
        count_kind(playing.entities@, EntityKind::Ball) == 1,
        count_kind(playing.entities@, EntityKind::PlayerPaddle) == 1,
        count_kind(playing.entities@, EntityKind::OpponentPaddle) == 1,
        count_kind(playing.entities@, EntityKind::Wall) == 4,
        count_kind(playing.entities@, EntityKind::ScoreText) == 1,
        paused.current_spec() == GameState::Paused,
        paused.entities@ == playing.entities@,
        resumed.current_spec() == GameState::InGame,
        resumed.entities@ == playing.entities@,
        ended.current_spec() == GameState::MainMenu,
        count_tagged(ended.entities@) == 0,
{
    // The menu holds exactly the two untagged buttons, so the start click
    // replaces them with the freshly spawned play set.
    assert(menu.states.stack@ =~= seq![GameState::MainMenu]);
    assert forall|i: int| 0 <= i < menu.entities@.len() implies button_pred()(
        #[trigger] menu.entities@[i],
    ) by {
        assert(menu.entities@ =~= initial_menu_entities());
    }
    lemma_remove_where_all(menu.entities@, button_pred());
    assert(playing.entities@ =~= initial_play_entities());
    lemma_initial_entity_counts();
    assert(playing.states.stack@ =~= seq![GameState::InGame]);

    // Pause pushes the overlay; a second pause pops it; entities never move.
    assert(paused.states.stack@ =~= seq![GameState::InGame, GameState::Paused]);
    assert(resumed.states.stack@ =~= seq![GameState::InGame]);

    // The back input tears every tagged entity down and rebuilds the menu.
    assert forall|i: int| 0 <= i < resumed.entities@.len() implies tagged_pred()(
        #[trigger] resumed.entities@[i],
    ) by {
        assert(resumed.entities@ =~= initial_play_entities());
    }
    lemma_remove_where_all(resumed.entities@, tagged_pred());
    assert(ended.entities@ =~= initial_menu_entities());
    assert(ended.states.stack@ =~= seq![GameState::MainMenu]);
}

} // verus!
