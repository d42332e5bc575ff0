[package]
name = "ion_core"
version = "0.1.0"
edition = "2021"
publish = false

[dependencies]
glob = "=0.3.4"
libloading = "=0.8.9"
log = "=0.4.34"
num-traits = "0.2"
serde = { version = "=1.0.229", features = ["derive"] }
serde_json = "=1.0.154"
zip = { version = "=9.0.5", default-features = false }
