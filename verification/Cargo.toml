[package]
name = "service_registry"
version = "0.1.0"
edition = "2021"
publish = false

[dependencies]
nanomsg = "0.7"
serde = { version = "1", features = ["derive"] }
serde_derive = "1"
serde_json = "1"
time = "0.1"
futures = "0.1"
crossbeam = "0.2"
log = "0.4"
