[package]
name = "setu_pipeline"
version = "0.1.0"
edition = "2021"
publish = false

[dependencies]
chinese-number = "*"
rand = "0.8"
strfmt = "*"
url = "2"
regex = "*"
serde = { version = "*", features = ["derive"] }
toml = "*"
tokio = { version = "*", features = ["rt-multi-thread", "macros", "sync", "fs", "io-util"] }
futures = "*"
reqwest = { version = "*", default-features = false, features = ["json", "rustls-tls"] }
trauma = "*"
ctrlc = "*"
