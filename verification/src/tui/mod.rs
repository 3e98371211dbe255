//! The terminal client's logic: its calendar arithmetic, configuration,
//! key map and state machine.

pub mod dates;
pub mod model;
pub mod keys;
pub mod config;
pub mod state;
pub mod sidebar;
pub mod app;
pub mod forms;
pub mod display;
