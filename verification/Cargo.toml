[package]
name = "anni"
version = "0.1.0"
edition = "2021"
publish = false

[dependencies]
sha2 = "*"
hex = "*"
lru = "*"
dashmap = "*"
parking_lot = "*"
tokio = { version = "*", features = ["fs", "io-util", "sync", "time", "rt", "rt-multi-thread", "macros"] }
async-trait = "*"
log = "*"
serde = { version = "*", features = ["derive"] }
toml = "*"
clap = { version = "*", features = ["derive"] }
anyhow = "*"
uuid = "*"
