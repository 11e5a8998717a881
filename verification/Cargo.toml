[package]
name = "shreduler"
version = "0.1.0"
edition = "2021"
publish = false

[dependencies]
rustix = { version = "0.38", features = ["process"] }
nix = { version = "0.26", default-features = false, features = ["fs"] }
tokio = { version = "1", features = ["full"] }
futures = "0.3"
tracing = "0.1"
tracing-subscriber = { version = "0.3", features = ["env-filter"] }
tracing-tree = "0.2"
magnus = "0.6"
rb-sys = "0.9"
