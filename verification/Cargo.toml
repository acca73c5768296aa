[package]
name = "generic_state_machine"
version = "0.1.0"
edition = "2021"
publish = false

[dependencies]
anyhow = "1"
derivative = "2"
thiserror = "1"
tokio = { version = "1", features = ["rt", "sync"] }
