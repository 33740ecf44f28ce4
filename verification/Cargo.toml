[package]
name = "reqlog"
version = "0.1.0"
edition = "2021"
publish = false

[dependencies]
futures = "0.3"
hyper = { version = "0.14", features = ["http1", "server", "tcp"] }
pin-project = "1"
tokio = { version = "1", features = ["macros", "rt-multi-thread", "time"] }
tower = { version = "0.4", default-features = false }
tracing = "0.1"
tracing-subscriber = "0.3"
