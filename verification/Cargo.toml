[package]
name = "fulgor"
version = "0.1.0"
edition = "2021"
publish = false

[dependencies]
num_cpus = "=1.17.0"
tokio = { version = "=1.54.1", features = ["sync", "rt", "macros", "time"] }
futures = "=0.3.34"
async-trait = "=0.1.92"
async-channel = "2"
serde = { version = "=1.0.229", features = ["derive"] }
thiserror = "=1.0.69"
image = { version = "=0.24.9", default-features = false, features = ["png"] }
