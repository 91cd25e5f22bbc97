[package]
name = "signalr_client"
version = "0.1.0"
edition = "2021"
publish = false

[dependencies]
serde = { version = "=1.0.229", features = ["derive"] }
serde_json = { version = "=1.0.154", features = ["preserve_order"] }
futures = "=0.3.34"
http = "=1.5.0"
log = "=0.4.34"
tokio = { version = "=1.54.1", features = ["rt", "rt-multi-thread", "net", "sync", "macros", "time"] }
tokio-websockets = { version = "=0.13.3", features = ["client", "fastrand", "sha1_smol", "native-tls"] }
tokio-native-tls = "0.3"
