//! An animated ASCII weather scene for character terminals.
//!
//! The library holds the cell-grid compositor, the particle systems that
//! paint into it, the lightning state machine and the static scene, and
//! beside them what the program knows and decides: the state between
//! frames and its status line, the settings, the errors, and the rules
//! for what was fetched. It does no I/O: a frame ends in a list of
//! terminal operations that the caller writes out.

pub mod animation;
pub mod animation_manager;
pub mod app_state;
pub mod cache;
pub mod config;
pub mod error;
pub mod fixed;
pub mod frame;
pub mod geolocation;
pub mod random;
pub mod render;
pub mod scene;
pub mod text;
pub mod weather;
