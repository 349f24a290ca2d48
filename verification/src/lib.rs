//! Screen logic of a terminal BitTorrent client: what the keys of each screen
//! mean, how each screen's state moves from one key to the next, which rows
//! and columns are on view, and where each panel goes.
pub mod app;
pub mod config;
pub mod event_journal;
pub mod geometry;
pub mod keys;
pub mod lists;
pub mod moments;
pub mod order;
pub mod paths;
pub mod peer_manager;
pub mod quantities;
pub mod search;
pub mod text;
pub mod tui;
