[package]
name = "cdk_pipeline"
version = "0.1.0"
edition = "2021"
publish = false

[dependencies]
alloy-primitives = { version = "=1.7.3", features = ["serde"] }
anyhow = "=1.0.104"
async-stream = "=0.3.6"
async-trait = "=0.1.92"
chrono = "=0.4.45"
clap = { version = "=4.6.7", features = ["derive"] }
futures = "=0.3.34"
futures-util = "=0.3.34"
metrics = "*"
metrics-exporter-prometheus = { version = "*", default-features = false }
moka = { version = "0.12", features = ["future"] }
prometheus = { version = "*", default-features = false }
rayon = "=1.12.0"
reqwest = { version = "=0.12.28", default-features = false, features = ["json"] }
serde = { version = "=1.0.229", features = ["derive"] }
serde_json = "=1.0.154"
sha2 = "=0.10.9"
thiserror = "=1.0.69"
tokio = { version = "=1.54.1", features = ["full"] }
tokio-tungstenite = "=0.30.0"
tonic = { version = "*", default-features = false, features = ["transport"] }
tracing = "=0.1.44"
tracing-subscriber = { version = "=0.3.23", features = ["env-filter"] }
url = "=2.5.8"
