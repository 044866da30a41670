//! Game logic of a grid snake: steering, movement with segment following,
//! food placement and growth, and the menu/play state machine.
pub mod direction;
pub mod game;
pub mod grid;
pub mod snake;
pub mod state;

pub use direction::{Arrow, Direction, KeyPresses};
pub use game::Game;
pub use grid::{cells_across, random_food_position, Position, CELL};
pub use snake::Snake;
pub use state::GameState;
