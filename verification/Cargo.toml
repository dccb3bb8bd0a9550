[package]
name = "dot"
version = "0.1.0"
edition = "2021"
publish = false

[dependencies]
git2 = "*"
md5 = "*"
chrono = "*"
serde = { version = "*", features = ["derive"] }
serde_json = "*"
clap = { version = "*", features = ["derive"] }
dirs = "*"
reqwest = { version = "*", default-features = false, features = ["json", "rustls-tls"] }
tokio = { version = "*", features = ["rt-multi-thread", "macros", "fs", "io-std", "io-util"] }

[dev-dependencies]
tempfile = "*"
