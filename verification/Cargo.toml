[package]
name = "ociplex"
version = "0.1.0"
edition = "2021"
publish = false

[dependencies]
anyhow = "1"
clap = { version = "4", features = ["derive", "cargo"] }
containerd-shim-protos = "=0.11.0"
liboci-cli = "=0.3.3"
protobuf = "=3.7.2"
serde = { version = "1", features = ["derive"] }
toml = "*"
tracing = "0.1"
tracing-subscriber = { version = "0.3", features = ["env-filter"] }
