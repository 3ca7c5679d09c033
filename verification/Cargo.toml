[package]
name = "libonebot"
version = "0.1.0"
edition = "2021"
publish = false

[dependencies]
anyhow = "=1.0.104"
bytes = "=1.12.1"
chrono = { version = "=0.4.45", default-features = false, features = ["clock"] }
fern = "=0.7.1"
futures-util = { version = "=0.3.34", default-features = false, features = ["sink", "std"] }
log = "=0.4.34"
reqwest = { version = "=0.13.5", default-features = false }
serde = { version = "=1.0.229", features = ["derive"] }
serde_json = "=1.0.151"
tokio = { version = "=1.53.2", features = ["rt-multi-thread", "macros", "net", "sync", "time", "io-util"] }
tokio-tungstenite = "=0.30.0"
warp = { version = "=0.4.3", default-features = false, features = ["server"] }
