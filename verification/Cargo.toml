[package]
name = "fuse_pipeline"
version = "0.1.0"
edition = "2021"
publish = false

[dependencies]
async-trait = "0.1"
serde = { version = "1.0", features = ["derive"] }
tokio-stream = "0.1"
