[package]
name = "backstitch_launcher"
version = "0.1.0"
edition = "2021"
publish = false

[dependencies]
semver = "=1.0.28"
url = "=2.5.8"
sha2 = "=0.10.9"
serde = { version = "=1.0.229", features = ["derive"] }
serde_json = "=1.0.154"
toml = "=0.8.23"
clap = { version = "=4.6.7", features = ["derive"] }
thiserror = "=2.0.21"
chrono = { version = "=0.4.45", features = ["serde"] }
reqwest = { version = "=0.12.28", default-features = false, features = ["json", "stream"] }
tokio = { version = "=1.54.1", features = ["rt-multi-thread", "macros", "fs", "io-util"] }
futures = "=0.3.34"
indicatif = "=0.17.11"
zip = { version = "=2.6.1", default-features = false, features = ["deflate"] }
tracing = "=0.1.44"
tracing-subscriber = { version = "=0.3.23", features = ["env-filter"] }
untranslocator = "=0.1.2"
