[package]
name = "nais_build"
version = "0.1.0"
edition = "2021"
publish = false

[dependencies]
chrono = "0.4"
clap = { version = "4", features = ["derive"] }
env_logger = "0.11"
google-cloud-auth = { version = "0.17", default-features = false, features = ["rustls-tls"] }
google-cloud-token = "0.1"
log = "0.4"
reqwest = { version = "0.12", default-features = false, features = ["json", "rustls-tls"] }
serde = { version = "1", features = ["derive"] }
serde-inline-default = "0.2"
serde_json = "1"
serde_yaml = "0.9"
sha256 = "1"
tempfile = "3"
thiserror = "1"
tokio = { version = "1", features = ["macros", "rt-multi-thread"] }
toml = "0.8"
