//! The engine: the player's state, the verbs and the shuttle's controls.

pub mod actions;
pub mod integrity;
pub mod laws;
pub mod shuttle;
pub mod state;
pub mod tui;
