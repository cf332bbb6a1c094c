//! A turn-based pursuit game on a grid: Theseus makes for the goal while the
//! Minotaur closes in one step per turn.

pub mod board;
pub mod command;
pub mod game;
pub mod laws;
pub mod types;

pub use board::tile_from_char;
pub use command::{command_from_line, command_from_text};
pub use game::{Game, GameView};
pub use types::{BoardError, BoardTile, Command, GameStatus};
