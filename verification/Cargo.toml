[package]
name = "omnia_plugin"
version = "0.1.0"
edition = "2021"
publish = false

[dependencies]
anyhow = "1"
cap-std = "3"
futures = "0.3"
proc-macro2 = "1"
quote = "1"
regex = "1"
semver = "1"
sha2 = "0.10"
syn = { version = "2", features = ["full"] }
tokio = { version = "1", features = ["rt"] }
wasm-pkg-client = "*"
