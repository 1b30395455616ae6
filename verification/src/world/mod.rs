//! The world graph: rooms, their connections and the registry of entities.

pub mod content;
pub mod data;
pub mod room;
