[package]
name = "pumpkin_protocol"
version = "0.1.0"
edition = "2021"
publish = false

[dependencies]
sha2 = "=0.10.9"
serde = { version = "=1.0.229", features = ["derive"] }
serde_json = "=1.0.151"
tokio = { version = "=1.53.2", features = ["rt", "net", "sync", "time", "macros", "io-util"] }
time = { version = "=0.3.55", features = ["formatting", "macros"] }
uuid = "=1.27.0"
proc-macro2 = "=1.0.107"
quote = "=1.0.47"
