[package]
name = "ufs"
version = "0.1.0"
edition = "2021"
publish = false

[dependencies]
num_cpus = "1"
anyhow = "1"
env_logger = "0.9"
hyper = { version = "0.14", features = ["server", "client", "http1", "tcp", "stream"] }
log = "0.4"
serde = { version = "1", features = ["derive"] }
structopt = "0.3"
tokio = { version = "1", features = ["rt-multi-thread", "macros", "fs", "io-util"] }
toml = "0.5"
