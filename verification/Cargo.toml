[package]
name = "netreport"
version = "0.1.0"
edition = "2021"
publish = false

[dependencies]
rand = "0.8"
mime_guess = "*"
axum = "*"
tokio = { version = "*", features = ["rt-multi-thread", "macros", "sync", "time", "net"] }
tower = { version = "*", features = ["util", "timeout", "load-shed", "limit"] }
clap = { version = "*", features = ["derive"] }
serde = { version = "*", features = ["derive"] }
serde_json = "*"
reqwest = { version = "*", default-features = false }
futures = "*"
