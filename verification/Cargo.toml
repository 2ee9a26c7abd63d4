[package]
name = "netstack"
version = "0.1.0"
edition = "2021"
publish = false

[dependencies]
futures = "=0.3.34"
smoltcp = { version = "=0.12.0", default-features = false, features = ["std", "medium-ip", "proto-ipv4", "proto-ipv6", "socket-tcp"] }
tokio = { version = "=1.54.1", features = ["sync", "rt", "time"] }
tokio-util = "=0.7.20"
tracing = { version = "0.1", default-features = false, features = ["std"] }

[dev-dependencies]
etherparse = "=0.16.0"
