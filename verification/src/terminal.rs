//! Keyboard input as the terminal reports it, and as the editor consumes it.

pub mod event;
pub mod input;
pub mod keyboard;
