[package]
name = "vllm_router_rs"
version = "0.1.0"
edition = "2021"
publish = false

[dependencies]
axum = { version = "0.8", default-features = false }
futures-util = "0.3"
serde_json = "1"
