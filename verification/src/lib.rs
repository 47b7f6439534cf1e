//! A terminal text-editing core: raw key input is normalised into logical key
//! events, and a caret-and-selection editor interprets those events.

pub mod action;
pub mod event;
pub mod event_loop_runner;
pub mod terminal;
pub mod text2;

pub use action::{Action, EventCtx, Handled};
pub use event::{TextEvent, WindowEvent};
