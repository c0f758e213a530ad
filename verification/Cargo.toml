[package]
name = "radkit_core"
version = "0.1.0"
edition = "2021"
publish = false

[dependencies]
a2a-types = "=0.2.0"
chrono = "=0.4.45"
uuid = { version = "=1.29.0", features = ["v4"] }
pbjson-types = "*"
serde_json = "=1.0.154"
async-trait = "=0.1.92"
