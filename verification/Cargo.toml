[package]
name = "pisugar"
version = "0.1.0"
edition = "2021"
publish = false

[dependencies]
chrono = { version = "0.4", features = ["serde"] }
shlex = "1"
jsonwebtoken = "9"
base64 = "0.22"
rppal = "0.22"
clap = { version = "4", features = ["derive"] }
serde = { version = "1", features = ["derive"] }
serde_json = "1"
tokio = { version = "1", features = ["full"] }
tokio-util = { version = "0.7", features = ["codec"] }
futures = "0.3"
log = "0.4"
env_logger = "0.11"
anyhow = "1"
actix-web = "4"
actix-files = "0.6"
actix-cors = "0.7"
actix-ws = "0.3"
tokio-tungstenite = "0.26"
hyper = { version = "0.14", features = ["client", "http1", "tcp"] }
rand = "0.9"
libc = "0.2"
syslog = "6"
lazy_static = "1"
ctor = "0.2"
sysinfo = "0.30"
enum-variants-strings = "*"
