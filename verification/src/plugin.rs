//! Plugin-level state that the settings view reports on.

pub mod state;
