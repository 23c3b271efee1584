[package]
name = "oadiscord"
version = "0.1.0"
edition = "2021"
publish = false

[dependencies]
base64 = "0.22"
log = "0.4"
openaction = "2"
reqwest = { version = "0.12", default-features = false }
serde = { version = "1", features = ["derive"] }
tokio = { version = "1", features = ["sync"] }
