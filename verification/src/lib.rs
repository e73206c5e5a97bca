//! Game rules of the Roids arcade game: collision filtering, asteroid
//! splitting and scoring, level and wave progression, player lives and score,
//! input interpretation and the game's state transitions.
pub mod collision;
pub mod input;
pub mod game_state;
pub mod player;
pub mod level;
pub mod roid;
pub mod game_ui;
pub mod bounds;
pub mod assets;
pub mod scheduling;
pub mod targeting;
pub mod warning;
