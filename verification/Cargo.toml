[package]
name = "kvlr"
version = "0.1.0"
edition = "2021"
publish = false

[dependencies]
bytes = "=1.12.1"
multimap = "=0.10.1"
tokio = { version = "=1.54.1", features = ["full"] }
serde = { version = "=1.0.229", features = ["derive"] }
rmp-serde = "=1.3.1"
thiserror = "=2.0.21"
async-trait = "=0.1.92"
tracing = "=0.1.44"
anyhow = "=1.0.104"
futures = "=0.3.34"
rustls = { version = "=0.23.46", default-features = false, features = ["std", "ring", "tls12"] }
tokio-rustls = { version = "=0.26.6", default-features = false, features = ["ring", "tls12"] }
tls-listener = { version = "=0.11.2", default-features = false, features = ["tokio-net", "rustls-ring"] }
ron = "=0.12.3"
serde-transcode = "=1.1.1"
sha2 = "*"
hex = "0.4"
