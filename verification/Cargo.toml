[package]
name = "kubeclean"
version = "0.1.0"
edition = "2021"
publish = false

[dependencies]
regex = "*"
clap = { version = "*", features = ["derive"] }
colog = "*"
k8s-openapi = { version = "*", features = ["latest"] }
kube = "*"
log = "*"
tokio = { version = "*", features = ["macros", "rt-multi-thread"] }
