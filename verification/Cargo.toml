[package]
name = "workspace_lock"
version = "0.1.0"
edition = "2021"
publish = false

[dependencies]
anyhow = "1"
clap = { version = "4", features = ["derive"] }
futures-util = "0.3"
humantime = "2"
notify-rust = { version = "4", default-features = false, features = ["z"] }
tokio = { version = "1", features = ["macros", "rt", "time", "net"] }
tokio-i3ipc = "*"
