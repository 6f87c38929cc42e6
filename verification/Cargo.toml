[package]
name = "zebra_core"
version = "0.1.0"
edition = "2021"
publish = false

[dependencies]
byteorder = "=1.5.0"
chrono = "=0.4.45"
indexmap = "=2.14.2"
rand = "=0.8.8"
sha2 = "0.10"
futures = "=0.3.34"
tokio = { version = "=1.54.1", features = ["macros", "net", "rt", "sync", "time"] }
tower = { version = "=0.4.13", features = ["buffer", "discover", "hedge", "limit", "load", "load-shed", "retry", "timeout", "util"] }
tokio-stream = "=0.1.19"
tokio-util = { version = "=0.7.20", features = ["codec"] }
pin-project = "=1.1.13"
thiserror = "=1.0.69"
serde = { version = "=1.0.229", features = ["derive"] }
color-eyre = "=0.6.5"
tracing = "=0.1.44"
tracing-futures = "=0.2.5"
jsonrpc-core = "=18.0.0"
jsonrpc-derive = "=18.0.0"
