[package]
name = "network-operator"
version = "0.2.4"
edition = "2021"
publish = false

[dependencies]
anyhow = "1"
chrono = "0.4"
clap = { version = "4", features = ["derive", "env"] }
futures = "0.3"
ipnet = "=2.12.2"
k8s-openapi = { version = "=0.25.0", features = ["v1_32", "schemars"] }
kube = { version = "=1.1.0", features = ["client", "runtime", "derive"] }
schemars = "0.8"
serde = { version = "1", features = ["derive"] }
serde_json = "1"
serde_yaml = "0.9"
thiserror = "2"
tokio = { version = "1", features = ["macros", "rt-multi-thread"] }
tracing = "0.1"
tracing-subscriber = { version = "0.3", features = ["env-filter", "json"] }
