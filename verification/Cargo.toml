[package]
name = "wot_discovery"
version = "0.1.0"
edition = "2021"
publish = false

[dependencies]
futures-core = "*"
futures-util = "*"
mdns-sd = "*"
reqwest = { version = "*", default-features = false, features = ["json"] }
serde_json = "*"
thiserror = "*"
