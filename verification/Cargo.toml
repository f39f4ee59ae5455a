[package]
name = "switcher"
version = "0.1.0"
edition = "2021"
publish = false

[dependencies]
clap = "*"
eyre = "*"
gstreamer = "*"
serde = { version = "*", features = ["derive"] }
thiserror = "*"
tokio = { version = "*", features = ["macros", "rt-multi-thread"] }
tracing = "*"
tracing-subscriber = "*"
