[package]
name = "reja"
version = "0.1.0"
edition = "2021"
publish = false

[dependencies]
serde_json = "=1.0.151"
serde = { version = "=1.0.229", features = ["derive"] }
toml = "=1.1.7"
reqwest = { version = "=0.13.5", default-features = false, features = ["json", "stream"] }
tokio = { version = "=1.53.2", features = ["macros", "rt-multi-thread", "sync", "time"] }
tokio-stream = "=0.1.19"
ratatui = "=0.28.1"
termimad = "=0.35.5"
tui-textarea = "=0.6.1"
