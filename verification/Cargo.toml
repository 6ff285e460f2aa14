[package]
name = "lunatic_distributed"
version = "0.1.0"
edition = "2021"
rust-version = "1.95"
publish = false

[dependencies]
anyhow = "=1.0.104"
bincode = "=1.3.3"
log = "=0.4.34"
serde = { version = "=1.0.229", features = ["derive"] }
tokio = { version = "=1.54.1", features = ["macros", "net", "rt", "sync", "time"] }
wasmtime = { version = "=36.0.19", default-features = false, features = ["async", "cranelift", "runtime"] }
