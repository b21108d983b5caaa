use vstd::prelude::*;

verus! {

/// A key press, as the game reads it.
#[derive(Clone, Copy, Debug, PartialEq, Eq, Structural)]
pub enum InputEvent {
    Up,
    Down,
    Left,
    Right,
    /// Confirm / fire.
    Enter,
    /// Leave the game.
    Esc,
    /// Any other key.
    Other,
}

/// The run state of the game: whether it runs, and the key read this frame.
pub struct GameState {
    pub running: bool,
    pub keyboard_event: Option<InputEvent>,
}

impl GameState {
    /// A game that has not started, with no key read.
    pub fn new() -> (r: GameState)
        ensures
            !r.running,
            r.keyboard_event is None,
    {
        GameState { running: false, keyboard_event: None }
    }

    pub fn start_game(&mut self)
        ensures
            final(self).running,
            final(self).keyboard_event == old(self).keyboard_event,
    {
        self.running = true;
    }

    pub fn stop_game(&mut self)
        ensures
            !final(self).running,
            final(self).keyboard_event == old(self).keyboard_event,
    {
        self.running = false;
    }

    pub fn is_running(&self) -> (r: bool)
        ensures
            r == self.running,
    {
        self.running
    }
}

} // verus!
