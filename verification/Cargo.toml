[package]
name = "runc"
version = "0.2.0"
edition = "2021"
publish = false

[dependencies]
oci-spec = "0.5"
serde = { version = "1", features = ["derive"] }
serde_json = "1"
tokio = { version = "1", features = ["macros", "process", "rt", "sync"] }
