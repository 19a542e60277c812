[package]
name = "gharchive_source"
version = "0.1.0"
edition = "2021"
publish = false

[dependencies]
serde_json = "=1.0.154"
chrono = { version = "=0.4.45", default-features = false, features = ["std", "serde"] }
serde = { version = "=1.0.229", features = ["derive"] }
tokio = { version = "=1.54.1", features = ["fs", "io-util", "rt"] }
async-compression = { version = "=0.4.51", features = ["tokio", "gzip"] }
async-trait = "=0.1.92"
fluxus = { version = "=0.2.0", features = ["fluxus-sources", "fluxus-utils"] }
