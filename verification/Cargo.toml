[package]
name = "tls_cert_checker"
version = "0.1.0"
edition = "2021"
publish = false

[dependencies]
anyhow = "1"
clap = { version = "4", features = ["derive"] }
csv = "1"
env_logger = "*"
log = "0.4"
openssl = "0.10"
serde = { version = "1", features = ["derive"] }
thiserror = "*"
x509-parser = "*"
