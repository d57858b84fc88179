[package]
name = "appshell"
version = "0.1.0"
edition = "2021"
publish = false

[dependencies]
uuid = { version = "*", features = ["v4"] }
chrono = "*"
tokio = { version = "*", features = ["sync", "rt-multi-thread", "time", "macros"] }
serde = { version = "*", features = ["derive"] }
serde_json = "*"
toml = "*"
rusqlite = { version = "*", features = ["bundled"] }
tiny_http = "*"
mime_guess = "*"
tracing = "*"
tracing-subscriber = { version = "*", features = ["env-filter", "fmt", "json"] }
