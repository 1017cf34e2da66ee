[package]
name = "mania"
version = "0.1.0"
edition = "2021"
publish = false

[dependencies]
sha1 = "=0.10.7"
md-5 = "=0.10.6"
hex = "=0.4.3"
flate2 = "=1.1.10"
rand = "=0.9.5"
p256 = { version = "=0.13.2", features = ["ecdh"] }
rand_core = { version = "=0.6.4", features = ["getrandom"] }
bytes = "=1.12.1"
tokio-util = { version = "=0.7.20", features = ["codec"] }
num_enum = "=0.7.6"
serde = { version = "=1.0.229", features = ["derive"] }
serde_json = "=1.0.154"
regex = "1"
