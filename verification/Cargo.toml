[package]
name = "weechat_matrix"
version = "0.1.0"
edition = "2021"
publish = false

[dependencies]
uuid = { version = "=0.8.2", features = ["v4"] }
serde_json = "1"
clap = "=2.34.0"
tokio = { version = "1", features = ["rt-multi-thread"] }
async-std = "=1.13.2"
matrix-sdk = { version = "0.3", default-features = false, features = ["native-tls"] }
weechat = { version = "=0.4.0", features = ["async"] }
