//! The backdrop that does not move: the ground, the house and what
//! stands around it.

pub mod decorations;
pub mod ground;
pub mod house;
pub mod world;

pub use world::WorldScene;
