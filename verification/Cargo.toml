[package]
name = "runx_runtime"
version = "0.1.0"
edition = "2021"
publish = false

[dependencies]
base64 = "=0.22.1"
ring = "=0.17.14"
sha2 = "=0.10.9"
url = "=2.5.8"
serde = { version = "=1.0.229", features = ["derive"] }
serde_json = "=1.0.154"
thiserror = "=2.0.21"
rustix = { version = "=1.1.6", features = ["process"] }
wait-timeout = "=0.2.1"
serde_yml = "*"
