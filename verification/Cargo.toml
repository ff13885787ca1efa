[package]
name = "danmu_terminal"
version = "0.1.0"
edition = "2021"
publish = false

[dependencies]
anyhow = "1"
chrono = "0.4"
crossterm = { version = "*", features = ["event-stream"] }
futures-util = "0.3"
qrcode = { version = "0.14", default-features = false }
ratatui = "*"
rpassword = "7"
serde = { version = "1", features = ["derive"] }
serde_json = "1"
tempfile = "3"
tokio = { version = "1", features = ["full"] }
toml_edit = "*"
tui-input = { version = "*", default-features = false }
unicode-segmentation = "1"
unicode-width = "0.2"
uuid = { version = "1", features = ["v4"] }
