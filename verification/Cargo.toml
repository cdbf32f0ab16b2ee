[package]
name = "selfapi_agent"
version = "0.1.0"
edition = "2021"
publish = false

[dependencies]
chrono = { version = "0.4", default-features = false, features = ["clock", "std"] }
getrandom = "0.2"
serde = { version = "1", features = ["derive"] }
serde_json = "1"
dirs = "5"
sysinfo = { version = "0.33", default-features = false, features = ["system"] }
nvml-wrapper = "0.10"
open = "5"
reqwest = { version = "0.12", default-features = false, features = ["json", "stream", "rustls-tls"] }
futures-util = "0.3"
tokio = { version = "1", features = ["rt-multi-thread", "net", "io-util", "time", "fs", "macros"] }
