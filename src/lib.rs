//! A Pomodoro timer's session engine: the preset list, the selection screen,
//! the work/break countdown with pause and reset, and the fixed-rate cycle
//! that drives it. Rendering and key capture belong to the caller.

pub mod clock;
pub mod engine;
pub mod laws;
