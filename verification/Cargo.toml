[package]
name = "jpas"
version = "0.1.0"
edition = "2021"
publish = false

[dependencies]
clap = { version = "4", features = ["derive"] }
derive_more = { version = "0.99" }
serde = { version = "1", features = ["derive"] }
serde_json = { version = "1" }
