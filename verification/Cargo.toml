[package]
name = "persona_system"
version = "0.1.0"
edition = "2021"
publish = false

[dependencies]
kameo = "*"
serde = { version = "1", features = ["derive"] }
serde_json = "1"
thiserror = "2"
tokio = { version = "1", features = ["rt-multi-thread", "macros"] }
