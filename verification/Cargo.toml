[package]
name = "actix_net"
version = "0.1.0"
edition = "2021"
publish = false

[dependencies]
bytes = "=0.5.6"
futures = "=0.3.34"
log = "=0.4.35"
pin-project = "=0.4.30"
tokio = { version = "=0.2.25", features = ["time", "rt-core", "rt-util", "tcp", "dns", "stream", "signal", "io-util"] }
tokio-util = { version = "=0.2.0", features = ["codec"] }
