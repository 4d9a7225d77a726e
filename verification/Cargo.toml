[package]
name = "git_credential_wsl"
version = "0.1.0"
edition = "2021"
publish = false

[dependencies]
anyhow = "1"
clap = { version = "4", features = ["derive"] }
futures = "0.3"
tokio = { version = "1", features = ["io-std", "io-util", "macros", "process", "rt"] }
