[package]
name = "tinyedge"
version = "0.1.0"
edition = "2021"
publish = false

[dependencies]
anyhow = "1"
async-trait = "0.1"
oci-distribution = { version = "0.6", default-features = false }
tokio = { version = "1", features = ["sync", "macros", "rt-multi-thread", "time"] }
tracing = "0.1"
tracing-subscriber = "0.2"
