use vstd::prelude::*;

verus! {

/// Screens of the game. Play starts from the menu; `GameOver` is declared
/// but no transition leads to it.
#[derive(Clone, Copy, Debug, PartialEq, Eq, Structural)]
pub enum GameState {
    MainMenu,
    Playing,
    GameOver,
}

impl GameState {
    /// The state the game opens in.
    pub fn initial() -> (s: GameState)
        ensures
            s == GameState::MainMenu,
    {
        GameState::MainMenu
    }

    /// The state after a frame in which the start key was pressed or not:
    /// pressing it in the menu starts play; nothing else changes the state.
    pub fn on_start_key(self, pressed: bool) -> (s: GameState)
        ensures
            s == (if self == GameState::MainMenu && pressed {
                GameState::Playing
            } else {
                self
            }),
    {
        if self == GameState::MainMenu && pressed {
            GameState::Playing
        } else {
            self
        }
    }

    /// Whether the play systems (input, movement, food) run in this state.
    pub fn is_playing(self) -> (r: bool)
        ensures
            r == (self == GameState::Playing),
    {
        self == GameState::Playing
    }

    /// Whether the menu is shown in this state.
    pub fn shows_menu(self) -> (r: bool)
        ensures
            r == (self == GameState::MainMenu),
    {
        self == GameState::MainMenu
    }
}

} // verus!
