[package]
name = "kubeforward"
version = "0.1.0"
edition = "2021"
publish = false

[dependencies]
clap = { version = "4", features = ["derive"] }
futures-util = "0.3"
hyper = { version = "0.14", features = ["client", "server", "http1", "tcp"] }
inquire = "*"
k8s-openapi = { version = "0.20", features = ["v1_26"] }
kube = { version = "0.87", features = ["ws"] }
log = "0.4"
simple_logger = "*"
tokio = { version = "1", features = ["full"] }
tower = { version = "0.4", features = ["util"] }
