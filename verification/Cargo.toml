[package]
name = "visual_trace"
version = "0.1.0"
edition = "2021"
publish = false

[dependencies]
dns-lookup = "*"
env_logger = { version = "*", default-features = false }
log = "*"
reqwest = { version = "*", default-features = false, features = ["default-tls", "json"] }
serde = { version = "*", features = ["derive"] }
serde_json = "*"
tokio = { version = "*", features = ["macros", "rt-multi-thread", "sync"] }
tracert = "*"
