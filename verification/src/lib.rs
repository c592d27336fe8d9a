//! State engine for a tile-based role-playing game: strategic world map,
//! local tactical maps, party movement, fog-of-war discovery, and the
//! view-transition state machine that moves play between them.

pub mod character;
pub mod game;
pub mod laws;
pub mod tactical;
pub mod transition;
pub mod types;
pub mod world;
