[package]
name = "zzrpc"
version = "0.1.0"
edition = "2021"
publish = false

[dependencies]
convert_case = "0.6"
uuid = { version = "1", features = ["v4"] }
serde = { version = "1", features = ["derive"] }
futures = "0.3"
tokio = { version = "1", features = ["rt", "time", "macros", "sync"] }
mezzenger = "*"
pin-project = "1"
syn = { version = "1", features = ["full", "extra-traits"] }
quote = "1"
proc-macro2 = "1"
