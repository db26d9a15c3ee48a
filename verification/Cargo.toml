[package]
name = "evergarden"
version = "0.1.0"
edition = "2021"
publish = false

[dependencies]
async-broadcast = "0.5"
cacache = { version = "12", default-features = false, features = ["tokio-runtime", "mmap"] }
clap = { version = "4", features = ["derive"] }
faster-hex = "=1.0.0"
flate2 = "=1.1.10"
flume = "0.11"
futures-util = "0.3"
governor = "0.6"
http = "=0.2.12"
humantime-serde = "1"
hyper = { version = "0.14", features = ["client", "http1", "tcp", "stream", "runtime"] }
hyper-rustls = "0.24"
itoa = "=1.0.18"
lz4_flex = "0.11"
neo-mime = "=0.1.1"
regex = "=1.13.1"
serde = { version = "=1.0.229", features = ["derive"] }
serde_json = "=1.0.154"
sha2 = "=0.10.9"
time = { version = "=0.3.55", features = ["formatting", "parsing", "serde"] }
tokio = { version = "1", features = ["full"] }
toml = "0.8"
tracing = "0.1"
tracing-subscriber = "0.3"
url = { version = "=2.5.8", features = ["serde"] }
uuid = { version = "=1.29.0", features = ["v4", "serde"] }
zip = { version = "0.6", default-features = false, features = ["deflate"] }
