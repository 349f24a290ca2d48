//! The terminal screens.
pub mod action_style;
pub mod layout;
pub mod screens;
