[package]
name = "pod_relocator"
version = "0.1.0"
edition = "2021"
publish = false

[dependencies]
clap = { version = "*", features = ["derive"] }
k8s-openapi = { version = "*", features = ["latest"] }
kube = { version = "*", features = ["client"] }
tokio = { version = "*", features = ["macros", "rt-multi-thread"] }
