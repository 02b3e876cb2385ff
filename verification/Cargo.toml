[package]
name = "vm_registry"
version = "0.1.0"
edition = "2021"
publish = false

[dependencies]
redis = "*"
serde = { version = "1", features = ["derive"] }
serde_json = "1"
tokio = { version = "1", features = ["macros", "rt-multi-thread"] }
warp = "0.3"
