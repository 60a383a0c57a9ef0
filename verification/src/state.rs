//! The menu / play / pause state machine.
//!
//! States live on a stack: a direct transition (`set`) replaces the top of
//! the stack, a pause (`push`) suspends the state below it, and a resume
//! (`pop`) discards the top. The current state is the top of the stack,
//! which is never empty.

use vstd::prelude::*;

verus! {

/// The three screens of the game.
#[derive(Clone, Copy, PartialEq, Eq, Structural, Debug)]
pub enum GameState {
    MainMenu,
    InGame,
    Paused,
}

/// Why a requested transition was rejected.
#[derive(Clone, Copy, PartialEq, Eq, Structural, Debug)]
pub enum StateError {
    /// The requested state is already the current state.
    AlreadyInState,
    /// A pop would leave the stack empty.
    StackEmpty,
}

/// A stack of states; the top is the current state.
pub struct StateStack {
    pub stack: Vec<GameState>,
}

impl StateStack {
    /// The stack is never empty.
    pub open spec fn wf(self) -> bool {
        self.stack@.len() >= 1
    }

    /// The current state: the top of the stack.
    pub open spec fn current_spec(self) -> GameState {
        self.stack@.last()
    }

    /// A fresh machine holding only the initial state.
    pub fn new(initial: GameState) -> (s: StateStack)
        ensures
            s.wf(),
            s.stack@ =~= seq![initial],
            s.current_spec() == initial,
    {
        let mut stack: Vec<GameState> = Vec::new();
        stack.push(initial);
        StateStack { stack }
    }

    /// Read the current state.
    pub fn current(&self) -> (s: GameState)
        requires
            self.wf(),
        ensures
            s == self.current_spec(),
    {
        self.stack[self.stack.len() - 1]
    }

    /// Direct transition: replace the top of the stack. Rejected if and
    /// only if the requested state is already current; nothing changes
    /// on rejection.
    pub fn set(&mut self, s: GameState) -> (r: Result<(), StateError>)
        requires
            old(self).wf(),
        ensures
            final(self).wf(),
            s == old(self).current_spec() ==> r == Result::<(), StateError>::Err(
                StateError::AlreadyInState,
            ) && final(self).stack@ == old(self).stack@,
            s != old(self).current_spec() ==> r == Result::<(), StateError>::Ok(())
                && final(self).stack@ == old(self).stack@.update(
                old(self).stack@.len() - 1,
                s,
            ),
            s != old(self).current_spec() ==> final(self).current_spec() == s,
    {
        let top = self.current();
        if top == s {
            return Err(StateError::AlreadyInState);
        }
        let last = self.stack.len() - 1;
        self.stack[last] = s;
        Ok(())
    }

    /// Push a state on top of the current one, suspending it. Rejected if
    /// and only if the requested state is already current.
    pub fn push(&mut self, s: GameState) -> (r: Result<(), StateError>)
        requires
            old(self).wf(),
        ensures
            final(self).wf(),
            s == old(self).current_spec() ==> r == Result::<(), StateError>::Err(
                StateError::AlreadyInState,
            ) && final(self).stack@ == old(self).stack@,
            s != old(self).current_spec() ==> r == Result::<(), StateError>::Ok(())
                && final(self).stack@ == old(self).stack@.push(s),
            s != old(self).current_spec() ==> final(self).current_spec() == s,
    {
        let top = self.current();
        if top == s {
            return Err(StateError::AlreadyInState);
        }
        self.stack.push(s);
        Ok(())
    }

    /// Pop the top state, resuming the one below it. Rejected if and only
    /// if the stack holds a single state.
    pub fn pop(&mut self) -> (r: Result<(), StateError>)
        requires
            old(self).wf(),
        ensures
            final(self).wf(),
            old(self).stack@.len() == 1 ==> r == Result::<(), StateError>::Err(
                StateError::StackEmpty,
            ) && final(self).stack@ == old(self).stack@,
            old(self).stack@.len() > 1 ==> r == Result::<(), StateError>::Ok(())
                && final(self).stack@ == old(self).stack@.drop_last(),
    {
        if self.stack.len() == 1 {
            return Err(StateError::StackEmpty);
        }
        let _ = self.stack.pop();
        Ok(())
    }
}

/// The state stack after one pause input: Paused is pushed on top of
/// InGame, popped when already Paused, and nothing happens in the menu or
/// when the key is not pressed.
pub open spec fn pause_transition(stack: Seq<GameState>, space_pressed: bool) -> Seq<GameState> {
    if !space_pressed {
        stack
    } else {
        match stack.last() {
            GameState::MainMenu => stack,
            GameState::InGame => stack.push(GameState::Paused),
            GameState::Paused => stack.drop_last(),
        }
    }
}

/// Handle the pause input: in play, push Paused (suspending the game); when
/// paused, pop back to play; in the menu, do nothing. Returns whether the
/// pause key must be reset so that one press gives one transition.
pub fn pause_game(states: &mut StateStack, space_pressed: bool) -> (reset_key: bool)
    requires
        old(states).wf(),
        old(states).current_spec() == GameState::Paused ==> old(states).stack@.len() >= 2,
    ensures
        final(states).wf(),
        final(states).stack@ == pause_transition(old(states).stack@, space_pressed),
        reset_key == (space_pressed && old(states).current_spec() != GameState::MainMenu),
{
    if space_pressed {
        let current = states.current();
        match current {
            GameState::MainMenu => false,
            GameState::InGame => {
                let r = states.push(GameState::Paused);
                true
            },
            GameState::Paused => {
                let r = states.pop();
                true
            },
        }
    } else {
        false
    }
}

/// Handle the back-to-menu input during play: a real state change, not a
/// stack pop, so the play session is torn down by the menu's setup pass.
/// Returns whether the key must be reset.
pub fn esc_to_menu(states: &mut StateStack, esc_just_pressed: bool) -> (reset_key: bool)
    requires
        old(states).wf(),
        old(states).current_spec() == GameState::InGame,
    ensures
        final(states).wf(),
        esc_just_pressed ==> final(states).stack@ == old(states).stack@.update(
            old(states).stack@.len() - 1,
            GameState::MainMenu,
        ) && final(states).current_spec() == GameState::MainMenu,
        !esc_just_pressed ==> final(states).stack@ == old(states).stack@,
        reset_key == esc_just_pressed,
{
    if esc_just_pressed {
        let r = states.set(GameState::MainMenu);
        true
    } else {
        false
    }
}

} // verus!
