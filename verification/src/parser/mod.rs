//! The reader of the player's input.

pub mod command;
