[package]
name = "sunset"
version = "0.1.0"
edition = "2021"
publish = false

[dependencies]
anyhow = "1"
async-trait = "0.1"
clap = { version = "3", features = ["derive"] }
k8s-openapi = { version = "0.15", default-features = false, features = ["v1_24"] }
kube = { version = "0.74", default-features = false, features = ["client", "rustls-tls"] }
log = "0.4"
serde = { version = "1", features = ["derive"] }
serde_json = "1"
tokio = { version = "1", features = ["macros", "rt-multi-thread"] }
