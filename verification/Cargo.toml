[package]
name = "replica_proxy"
version = "0.1.0"
edition = "2021"
publish = false

[dependencies]
async-stream = "=0.3.6"
hyper = "=0.14.32"
libsql_replication = "=0.10.0"
tokio-stream = "=0.1.19"
tonic = "=0.11.0"
tracing = "=0.1.44"

[dev-dependencies]
tokio = { version = "=1.54.1", features = ["rt"] }
