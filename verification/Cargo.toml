[package]
name = "simulator_bridge"
version = "0.1.0"
edition = "2021"
publish = false

[dependencies]
serde_json = "1"
urlencoding = "2"
serde = { version = "1", features = ["derive"] }
clap = { version = "4", features = ["derive"] }
anyhow = "1"
log = "0.4"
url = "2"
reqwest = { version = "0.12", default-features = false, features = ["blocking"] }
