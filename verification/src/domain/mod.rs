//! The pure game rules: board, cells, players, positions and status, and
//! the user model (usernames, ages, profiles).

pub mod age;
pub mod board;
pub mod cell;
pub mod game_status;
pub mod player;
pub mod position;
pub mod profile;
pub mod username;

pub use age::Age;
pub use board::Board;
pub use cell::Cell;
pub use game_status::GameStatus;
pub use player::Player;
pub use position::Position;
pub use profile::{RankingEntry, UserProfile};
pub use username::{Username, UsernameError};
