[package]
name = "v2ray_maid"
version = "0.1.0"
edition = "2021"
publish = false

[dependencies]
base64 = "0.13"
dirs = "3"
log = "0.4"
num_cpus = "1"
regex = "1"
reqwest = "0.11"
serde = { version = "1", features = ["derive"] }
serde_json = "1"
tokio = { version = "1", features = ["macros", "rt-multi-thread"] }
uuid = { version = "0.8", features = ["v4"] }
