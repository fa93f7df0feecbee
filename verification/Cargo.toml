[package]
name = "stakpak"
version = "0.1.0"
edition = "2021"
publish = false

[dependencies]
textwrap = "0.16"
serde = { version = "1", features = ["derive"] }
ratatui = "0.29"
