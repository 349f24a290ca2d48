//! Where the parts of a screen go.
pub mod common;
pub mod config;
pub mod peers;
