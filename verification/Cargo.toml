[package]
name = "yummy"
version = "0.1.0"
edition = "2021"
publish = false

[dependencies]
configparser = { version = "*", features = ["indexmap"] }
quick-xml = { version = "*", features = ["serialize"] }
serde = { version = "*", features = ["derive"] }
tokio = { version = "*", features = ["fs", "rt-multi-thread"] }
futures = "*"
async-stream = "*"
tracing = "*"
tracing-subscriber = "*"
num_cpus = "*"
