[package]
name = "polkit_tui_agent"
version = "0.1.0"
edition = "2021"
publish = false

[dependencies]
crossterm = { version = "0.29", features = ["event-stream"] }
futures = "0.3"
ratatui = "0.30"
serde = { version = "1", features = ["derive"] }
serde_json = "1"
tokio = { version = "1", features = ["full"] }
tokio-stream = "0.1"
unicode-width = "0.2"
uzers = "0.12"
zbus = { version = "5", default-features = false, features = ["tokio"] }
zbus_polkit = { version = "5", default-features = false, features = ["tokio"] }
