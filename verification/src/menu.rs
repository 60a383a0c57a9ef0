//! Main-menu controls: button visuals and button actions.
//!
//! Each interactive control carries a tri-state interaction signal. A
//! generic visual rule shared by both buttons maps the signal to a color;
//! the specific action (start or quit) is dispatched off the pressed state
//! by a per-button rule.

use vstd::prelude::*;

use crate::state::GameState;
use crate::state::StateStack;

verus! {

/// The interaction signal of a clickable control.
#[derive(Clone, Copy, PartialEq, Eq, Structural, Debug)]
pub enum Interaction {
    Pressed,
    Hovered,
    Idle,
}

/// A color as red, green and blue channels in thousandths (0 to 1000 for
/// the unit interval).
#[derive(Clone, Copy, PartialEq, Eq, Structural, Debug)]
pub struct Rgb {
    pub red: u32,
    pub green: u32,
    pub blue: u32,
}

/// The idle background color of a menu button.
pub open spec fn normal_button_color() -> Rgb {
    Rgb { red: 150, green: 150, blue: 150 }
}

/// The button color for each interaction state: yellow when pressed, red
/// when hovered, the normal color when idle.
pub open spec fn button_color_spec(i: Interaction) -> Rgb {
    match i {
        Interaction::Pressed => Rgb { red: 900, green: 900, blue: 100 },
        Interaction::Hovered => Rgb { red: 900, green: 100, blue: 100 },
        Interaction::Idle => normal_button_color(),
    }
}

/// The shared visual rule: the color a button shows for its current
/// interaction state.
pub fn button_color(interaction: &Interaction) -> (c: Rgb)
    ensures
        c == button_color_spec(*interaction),
{
    match interaction {
        Interaction::Pressed => Rgb { red: 900, green: 900, blue: 100 },
        Interaction::Hovered => Rgb { red: 900, green: 100, blue: 100 },
        Interaction::Idle => Rgb { red: 150, green: 150, blue: 150 },
    }
}

/// The start button's action: a press transitions from the menu into the
/// game; hovering or nothing leaves the state alone.
pub fn start_button_action(interaction: &Interaction, states: &mut StateStack) -> (started: bool)
    requires
        old(states).wf(),
        old(states).current_spec() == GameState::MainMenu,
    ensures
        final(states).wf(),
        *interaction == Interaction::Pressed ==> final(states).stack@
            == old(states).stack@.update(old(states).stack@.len() - 1, GameState::InGame)
            && final(states).current_spec() == GameState::InGame,
        *interaction != Interaction::Pressed ==> final(states).stack@ == old(states).stack@,
        started == (*interaction == Interaction::Pressed),
{
    match interaction {
        Interaction::Pressed => {
            let r = states.set(GameState::InGame);
            true
        },
        Interaction::Hovered => false,
        Interaction::Idle => false,
    }
}

/// The quit button's action: a press asks the host to exit the process.
pub fn quit_button_action(interaction: &Interaction) -> (exit: bool)
    ensures
        exit == (*interaction == Interaction::Pressed),
{
    match interaction {
        Interaction::Pressed => true,
        Interaction::Hovered => false,
        Interaction::Idle => false,
    }
}

} // verus!
