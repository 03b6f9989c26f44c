[package]
name = "rori_endpoint"
version = "0.1.0"
edition = "2021"
publish = false

[dependencies]
serde = { version = "1", features = ["derive"] }
serde_json = "1"
time = "0.3"
log = "0.4"
env_logger = "0.10"
dbus = { version = "0.9", features = ["vendored"] }
reqwest = { version = "0.11", features = ["blocking"] }
iron = "0.6"
router = "0.6"
bodyparser = "0.8"
