[package]
name = "burble"
version = "0.1.0"
edition = "2021"
publish = false

[dependencies]
aes = "0.8"
cmac = "0.7"
p256 = { version = "0.13", features = ["ecdh"] }
parking_lot = "0.12"
rand_core = { version = "0.6", features = ["getrandom"] }
smallvec = "1"
structbuf = "*"
subtle = "2"
thiserror = "1"
tokio = { version = "1", features = ["sync", "time", "rt", "macros"] }
tokio-util = "0.7"
tracing = "0.1"
