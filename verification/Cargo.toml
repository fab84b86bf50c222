[package]
name = "rustobot"
version = "0.1.0"
edition = "2021"
publish = false

[dependencies]
anyhow = "=1.0.104"
k8s-openapi = { version = "=0.27.1", features = ["latest"] }
kube = "=3.1.0"
paginate = "=1.1.11"
poise = "=0.6.2"
reqwest = "=0.12.28"
serde = { version = "=1.0.229", features = ["derive"] }
serde_json = "=1.0.154"
strum = { version = "=0.28.0", features = ["derive"] }
tokio = { version = "=1.54.1", features = ["full"] }
tracing = "=0.1.44"
tracing-subscriber = "=0.3.23"
url = "=2.5.8"
uuid = { version = "=1.29.0", features = ["v4"] }
