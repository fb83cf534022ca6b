[package]
name = "stellar_k8s"
version = "0.1.0"
edition = "2021"
publish = false

[dependencies]
chrono = { version = "*", default-features = false, features = ["clock", "alloc"] }
kube = { version = "*", features = ["runtime", "derive"] }
k8s-openapi = { version = "*", features = ["latest"] }
kube-leader-election = "*"
serde = { version = "*", features = ["derive"] }
serde_json = "*"
schemars = "*"
tokio = { version = "*", features = ["macros", "rt-multi-thread", "signal"] }
futures = "*"
axum = "*"
tower-http = { version = "*", features = ["trace"] }
tracing = "*"
tracing-subscriber = { version = "*", features = ["env-filter"] }
hostname = "*"
