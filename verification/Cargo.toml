[package]
name = "scram_hpc_rs"
version = "0.1.0"
edition = "2021"
publish = false

[dependencies]
rand = "0.8"
anyhow = "1"
futures = "0.3"
tokio = { version = "1", features = ["full"] }
reqwest = { version = "0.12", default-features = false, features = ["rustls-tls"] }
chromiumoxide = { version = "=0.7.0", default-features = false, features = ["tokio-runtime"] }
ort = { version = "=2.0.0-rc.13", default-features = false, features = ["load-dynamic"] }
