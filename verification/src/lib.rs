//! Controller of a panel applet that shows how much of the system memory is in use.
//!
//! The applet polls the memory statistics at a configured interval, shows the used share as a
//! percentage, and opens or closes one popup when its button is pressed. This crate holds the
//! controller: its state, the transition for each message, and what the panel shows. Drawing,
//! timers and windows belong to the program that embeds it.

pub mod app;
pub mod config;
pub mod laws;
pub mod memory;
pub mod popup;
pub mod reader;
