[package]
name = "animated_cursor"
version = "0.1.0"
edition = "2021"
publish = false

[dependencies]
color-eyre = "*"
futures-util = "*"
serde = { version = "*", features = ["derive"] }
tokio = { version = "*", features = ["sync", "macros", "rt", "time"] }
tracing = "*"
