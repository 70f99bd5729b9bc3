[package]
name = "pumpkinsoup"
version = "0.1.0"
edition = "2021"
publish = false

[dependencies]
dashmap = "6"
uuid = "1"
once_cell = "1"
log = "0.4"
serde = { version = "1", features = ["derive"] }
toml = "0.8"
tokio = { version = "1", features = ["rt-multi-thread", "time"] }
futures = "0.3"
async-trait = "0.1"
