[package]
name = "superseedr"
version = "0.1.0"
edition = "2021"
publish = false

[dependencies]
chrono = "=0.4.45"
directories = "=6.0.0"
fuzzy-matcher = "=0.3.7"
hex = "=0.4.3"
ratatui = "=0.29.0"
regex = "=1.13.1"
tokio = { version = "=1.54.1", features = ["macros", "rt", "sync"] }
unicode-truncate = "=3.0.0"
