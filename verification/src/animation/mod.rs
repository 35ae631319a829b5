//! The effects that move: one system for each kind of weather and
//! ambience, all built on the same particle life cycle.

pub mod airplanes;
pub mod birds;
pub mod chimney;
pub mod clouds;
pub mod controller;
pub mod engine;
pub mod fireflies;
pub mod fog;
pub mod leaves;
pub mod moon;
pub mod raindrops;
pub mod snow;
pub mod stars;
pub mod sunny;
pub mod thunderstorm;
pub mod ufo;

pub use controller::{Animation, AnimationController};
