//! The cell grid: what is painted this frame, what the terminal shows,
//! and the operations that turn the one into the other.

pub mod capabilities;
pub mod color;
pub mod grid;
pub mod ops;
pub mod stamp;

pub use capabilities::{ColorSupport, TerminalCapabilities};
pub use color::Color;
pub use grid::{Cell, TerminalRenderer, MIN_TERMINAL_HEIGHT, MIN_TERMINAL_WIDTH};
pub use ops::TerminalOp;
