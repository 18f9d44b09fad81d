[package]
name = "caesar_commander"
version = "0.1.0"
edition = "2021"
publish = false

[dependencies]
chrono = "0.4"
clap = { version = "4", features = ["derive"] }
dirs = "5"
egui = "0.31"
env_logger = "0.11"
log = "0.4"
notify = "6"
tokio = { version = "1", features = ["macros", "rt-multi-thread", "sync", "time"] }

[dev-dependencies]
tempfile = "3"
