[package]
name = "winbridge"
version = "0.1.0"
edition = "2021"
publish = false

[dependencies]
base64 = "*"
serde_json = "*"
serde = { version = "*", features = ["derive"] }
toml = "*"
clap = { version = "4", default-features = false, features = ["std", "derive", "help", "usage", "error-context"] }
directories = "*"
anyhow = "*"
thiserror = "*"
async-channel = "*"
async-trait = "*"
tokio = { version = "1", features = ["rt-multi-thread", "macros", "net", "time", "signal", "sync", "io-util"] }
tracing = "*"
tracing-subscriber = { version = "*", features = ["env-filter"] }
virt = "*"
gtk4 = "*"
glib = "*"
ksni = "0.2"
ironrdp = "*"
ironrdp-pdu = "*"
ironrdp-graphics = "*"
ironrdp-tokio = "*"
tokio-rustls = { version = "0.26", default-features = false, features = ["ring", "tls12", "logging"] }
x509-cert = "*"
