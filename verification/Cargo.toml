[package]
name = "webapi_dispatch"
version = "0.1.0"
edition = "2021"
publish = false

[dependencies]
rand = "0.8"
serde_json = "1"
serde = { version = "1", features = ["derive"] }
serde_yaml = "0.8"
once_cell = "1"
log = "0.4"
reqwest = { version = "0.11", features = ["blocking", "json"] }
