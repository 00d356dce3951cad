[package]
name = "docs_sync"
version = "0.1.0"
edition = "2021"
publish = false

[dependencies]
anyhow = "1"
async-channel = "2"
bytes = "1"
iroh = { version = "*", default-features = false }
iroh-gossip = "*"
irpc = "*"
n0-future = "*"
postcard = { version = "1", features = ["use-std"] }
serde = { version = "1", features = ["derive"] }
thiserror = "2"
tokio = { version = "1", features = ["sync", "time", "rt", "macros", "io-util"] }
tokio-stream = "*"
tokio-util = { version = "*", features = ["codec"] }
tracing = "0.1"
