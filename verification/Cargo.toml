[package]
name = "og_preview"
version = "0.1.0"
edition = "2021"
publish = false

[dependencies]
select = "*"
hyper = "0.10"
hyper-native-tls = "0.3"
iron = "0.6"
params = "0.8"
persistent = "0.4"
router = "0.6"
serde = { version = "1", features = ["derive"] }
serde_derive = "1"
serde_json = "1"
