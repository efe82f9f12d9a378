[package]
name = "usg-est-issuer"
version = "0.2.1"
edition = "2021"
publish = false

[dependencies]
base64 = "=0.22.1"
x509-parser = "=0.18.1"
humantime = "=2.4.0"
der = { version = "=0.8.3", features = ["pem", "alloc"] }
x509-cert = { version = "=0.3.0", features = ["pem"] }
kube = { version = "=4.2.0", features = ["runtime", "derive"] }
k8s-openapi = { version = "=0.28.0", features = ["latest", "schemars"] }
k8s-crds-cert-manager = "=1.21.1"
usg-est-client = "=2.2.0"
tokio = { version = "=1.54.1", features = ["macros", "rt-multi-thread"] }
futures = "=0.3.34"
tracing = "=0.1.44"
tracing-subscriber = { version = "=0.3.23", features = ["json", "env-filter"] }
uuid = { version = "=1.29.0", features = ["v7"] }
chrono = "=0.4.45"
serde = { version = "=1.0.229", features = ["derive"] }
serde_json = "=1.0.154"
schemars = "=1.2.3"
thiserror = "=2.0.21"
anyhow = "=1.0.104"
serde-saphyr = "=2.0.0"

[dev-dependencies]
rcgen = "=0.14.10"
