[package]
name = "checklist"
version = "0.1.0"
edition = "2021"
publish = false

[dependencies]
anyhow = "1"
chrono = "0.4"
clap = { version = "4", features = ["derive"] }
color-eyre = "0.6"
crossterm = "*"
directories = "*"
ratatui = { version = "*", features = ["serde"] }
rusqlite = { version = "*", features = ["bundled", "chrono", "uuid"] }
serde = { version = "1", features = ["derive"] }
serde_json = "1"
struct-field-names-as-array = "*"
strum_macros = "*"
toml = "*"
uuid = { version = "1", features = ["v4"] }
