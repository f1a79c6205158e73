[package]
name = "onvif_console"
version = "0.1.0"
edition = "2021"
publish = false

[dependencies]
regex = "*"
ratatui = "*"
color-eyre = "*"
tokio = { version = "*", features = ["macros", "rt-multi-thread"] }
reqwest = { version = "*", default-features = false }
