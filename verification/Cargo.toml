[package]
name = "tui_image_viewer"
version = "0.1.0"
edition = "2021"
publish = false

[dependencies]
image = "*"
ratatui = "*"
crossterm = "*"
serde = { version = "*", features = ["derive"] }
serde_json = "*"
toml = "*"
dirs = "*"
chrono = "*"
once_cell = "*"
log = "*"
