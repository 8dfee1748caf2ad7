[package]
name = "ragnarok"
version = "0.1.0"
edition = "2021"
publish = false

[dependencies]
anyhow = "1"
async-codec = "0.4"
async-std = "1"
async-trait = "0.1"
chrono = "0.4"
dashmap = "*"
fastrand = "*"
futures-util = "0.3"
serde = { version = "1", features = ["derive"] }
serde_yaml = "*"
stackvec = "0.2"
thiserror = "1"
tracing = "0.1"
tracing-subscriber = { version = "0.3", features = ["env-filter"] }
