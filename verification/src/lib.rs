//! The logic of a screenshot utility: its hotkey configuration, the keys it
//! names, and the state that its window walks through.

pub mod app_state;
pub mod config;
pub mod config_laws;
pub mod geometry;
pub mod hotkey_action;
pub mod keys;
pub mod text;
