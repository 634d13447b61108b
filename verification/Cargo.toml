[package]
name = "vertx_tcp_eventbus_bridge_client_rust"
version = "0.1.0"
edition = "2021"
publish = false

[dependencies]
byteorder = "1"
bytes = "1"
serde_json = "1"
futures = "0.3"
rayon = "1"
tokio = { version = "1", features = ["net", "io-util", "sync", "rt", "macros"] }
tokio-util = { version = "0.7", features = ["codec"] }
