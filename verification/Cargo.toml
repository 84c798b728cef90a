[package]
name = "wmgr"
version = "0.1.0"
edition = "2021"
publish = false

[dependencies]
url = "2"
num_cpus = "1"
serde = { version = "1", features = ["derive"] }
serde_yaml = "0.9"
serde_json = "1"
tokio = { version = "1", features = ["full"] }
clap = { version = "4", features = ["derive"] }
anyhow = "1"
thiserror = "1"
futures = "0.3"
colored = "2"
walkdir = "2"
regex = "1"
chrono = "0.4"
tracing = "0.1"
tracing-subscriber = "0.3"
async-trait = "0.1"
git2 = { version = "*", default-features = false }
reqwest = { version = "0.12", default-features = false, features = ["rustls-tls"] }
flate2 = "1"
tar = "0.4"
zip = { version = "*", default-features = false, features = ["deflate"] }
aws-config = { version = "1", features = ["behavior-version-latest"] }
aws-sdk-s3 = "1"
aws-credential-types = "1"

[dev-dependencies]
tempfile = "3"
