[package]
name = "devcaders"
version = "0.1.0"
edition = "2021"
publish = false

[dependencies]
devcade_onboard_types = "*"
serde_json = "*"
tokio = { version = "*", features = ["io-util", "macros", "net", "rt", "rt-multi-thread", "sync"] }
log = "*"
