pub mod game;
pub mod laws;
pub mod game_state;
pub mod grid;
pub mod load_map;
pub mod text;
pub mod types;
pub mod utils;
