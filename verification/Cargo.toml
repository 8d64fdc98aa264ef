[package]
name = "doip_sockets"
version = "0.1.0"
edition = "2021"
publish = false

[dependencies]
tokio = { version = "1", features = ["net", "io-util", "rt", "rt-multi-thread", "time"] }

[dev-dependencies]
doip-codec = "1"
doip-definitions = "1"
tokio-util = { version = "0.7", features = ["codec"] }
futures = "0.3"
bytes = "1"
