[package]
name = "node_launcher"
version = "0.1.0"
edition = "2021"
publish = false

[dependencies]
url = "=2.5.8"
nanoid = "=0.4.0"
semver = "=1.0.28"
serde = { version = "=1.0.229", features = ["derive"] }
serde_json = "=1.0.154"
serde_yaml = "=0.9.34"
thiserror = "=1.0.69"
symlink = "=0.1.0"
portpicker = "=0.1.1"
log = "=0.4.34"
futures = "=0.3.34"
log4rs = "1"
opener = "0.6"
sodoken = "0.0.11"
url2 = "0.0.6"
