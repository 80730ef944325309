[package]
name = "jpf4826_driver"
version = "0.1.0"
edition = "2021"
publish = false

[dependencies]
anyhow = "1"
clap = { version = "4", features = ["derive", "env"] }
env_logger = "*"
log = "0.4"
serde = { version = "1", features = ["derive"] }
serde_json = "1"
tokio = { version = "1", features = ["rt", "macros", "time", "io-util"] }
tokio-modbus = { version = "*", default-features = false, features = ["rtu"] }
tokio-serial = { version = "5", default-features = false }
