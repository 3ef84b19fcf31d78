[package]
name = "cluster_context"
version = "0.1.0"
edition = "2021"
publish = false

[dependencies]
anyhow = "1"
k8s-openapi = { version = "0.11", default-features = false, features = ["v1_20"] }
serde_json = "1"
wapc-guest = "0.4"
