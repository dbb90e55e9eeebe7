[package]
name = "smart_house"
version = "0.1.0"
edition = "2021"
publish = false

[dependencies]
dashmap = "*"
derive_more = { version = "*", features = ["display"] }
serde = { version = "*", features = ["derive"] }
thiserror = "*"
