//! A small frame for console programs: a model that is loaded from a state
//! file, updated while it says so, drawn every frame, fed with input, and
//! told to exit, on a raylib window or in a terminal.
pub mod config;
pub mod session;
pub mod laws;
