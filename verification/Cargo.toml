[package]
name = "bridger"
version = "0.1.0"
edition = "2021"
publish = false

[dependencies]
array-bytes = "=9.3.0"
async-trait = "=0.1.92"
cargo-util = "=0.1.2"
color-eyre = "=0.6.5"
colored = "=3.1.1"
futures = "=0.3.34"
lifeline = "=0.6.1"
microkv = "=0.2.9"
postage = "=0.4.1"
serde = { version = "=1.0.229", features = ["derive"] }
serde_json = "=1.0.154"
thiserror = "=1.0.69"
tracing = "=0.1.44"
