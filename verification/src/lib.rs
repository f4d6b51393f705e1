//! A verified tic-tac-toe game engine: a 3x3 board, two players, move
//! application with win and draw detection, input parsing, and text
//! rendering of the board.

pub mod engine;
pub mod render;
pub mod square;

pub use crate::engine::Game;
pub use crate::engine::GameOutcome;
pub use crate::engine::PlayOutcome;
pub use crate::square::Player;
pub use crate::square::Square;
