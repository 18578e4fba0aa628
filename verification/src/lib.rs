//! Data-driven assembly of entities and scenes: tagged JSON envelopes are
//! dispatched by their type id to typed loaders, whose components are folded
//! onto entities; scenes and the start-up join are composed the same way.

pub mod components;
pub mod decode;
pub mod game;
pub mod globals;
pub mod input;
pub mod keys;
pub mod laws;
pub mod load;
pub mod scenes;
pub mod sequence;
pub mod systems;
pub mod value;
pub mod world;
