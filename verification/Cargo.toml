[package]
name = "shanhai_client"
version = "0.1.0"
edition = "2021"
publish = false

[dependencies]
bevy_app = { version = "0.17", default-features = false, features = ["std"] }
bevy_ecs = { version = "0.17", default-features = false, features = ["std"] }
bevy_log = { version = "0.17", default-features = false }
chrono = { version = "0.4", default-features = false, features = ["clock"] }
ed25519-dalek = "2"
hex = "0.4"
reqwest = { version = "0.12", default-features = false, features = ["json"] }
serde = { version = "1", features = ["derive"] }
serde_json = "1"
sha3 = "0.10"
thiserror = "2"
tokio = { version = "1", features = ["rt-multi-thread", "net", "sync", "time"] }
