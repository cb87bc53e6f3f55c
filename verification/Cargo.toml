[package]
name = "quads_tui"
version = "0.1.0"
edition = "2021"
publish = false

[dependencies]
serde = { version = "1", features = ["derive"] }
serde_json = "1"
toml = "*"
toml_edit = "*"
semver = "1"
anyhow = "1"
log = "0.4"
dirs = "*"
fs2 = "0.4"
simplelog = "*"
crossterm = "*"
ratatui = "*"
tokio = { version = "1", features = ["full"] }
reqwest = { version = "*", features = ["json"] }
