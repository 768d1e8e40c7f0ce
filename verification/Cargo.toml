[package]
name = "codequest"
version = "0.1.0"
edition = "2021"
publish = false

[dependencies]
sha2 = "=0.11.0"
argon2 = "=0.6.0"
uuid = { version = "=1.27.0", features = ["v4"] }
tokio = { version = "=1.53.2", features = ["rt-multi-thread", "macros", "process", "sync", "time", "io-util"] }
async-nats = "=0.50.0"
serde = { version = "=1.0.229", features = ["derive"] }
serde_json = "=1.0.151"
rand = "=0.10.3"
rand_chacha = "=0.10.0"
futures-util = "*"
