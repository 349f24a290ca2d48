//! One module per screen: what its keys mean and how its state moves.
pub mod config;
pub mod help;
pub mod input_panel;
pub mod journal;
pub mod peers;
pub mod torrents;
