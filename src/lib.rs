//! Level simulation core of a terminal grid puzzle game: the sparse grid of
//! cells, the player's movement rules, the enemies' tick and the turn state.
pub mod cell;
pub mod game_state;
pub mod grid;
pub mod lemmas;
pub mod level;
pub mod levels;
