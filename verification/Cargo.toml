[package]
name = "bullseye_core"
version = "0.1.0"
edition = "2021"
publish = false

[dependencies]
chrono = "*"
serde = { version = "*", features = ["derive"] }
rand = "*"
tokio = { version = "*", features = ["rt-multi-thread", "macros", "net", "time"] }
axum = { version = "*", features = ["ws"] }
tower-http = { version = "*", features = ["cors"] }
http = "*"
