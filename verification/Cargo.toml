[package]
name = "openbci"
version = "0.1.0"
edition = "2021"
publish = false

[dependencies]
rosc = "*"
anyhow = "1"
chrono = { version = "0.4", features = ["serde"] }
clap = { version = "4", features = ["derive"] }
csv = "1"
env_logger = "*"
log = "0.4"
reqwest = { version = "*", default-features = false, features = ["json"] }
serde = { version = "1", features = ["derive"] }
serde_json = "1"
tokio = { version = "1", features = ["rt-multi-thread", "macros", "net", "io-util", "time"] }
esp-idf-hal = "*"
esp-idf-svc = "*"
esp-idf-sys = "*"
