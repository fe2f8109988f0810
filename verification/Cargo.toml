[package]
name = "yawsf"
version = "0.1.0"
edition = "2021"
publish = false

[dependencies]
anyhow = "=1.0.104"
arc-swap = "=1.9.3"
clap = { version = "=4.6.7", features = ["derive"] }
gtk4 = "=0.11.5"
gtk4-layer-shell = "=0.8.1"
gtk4-session-lock = "=0.4.1"
libc = "=0.2.191"
rand = "=0.9.5"
reqwest = { version = "=0.12.28", default-features = false, features = ["json"] }
rocket = { version = "=0.5.2", features = ["json"] }
serde = { version = "=1.0.229", features = ["derive"] }
serde_json = "=1.0.154"
shell-words = "=1.1.1"
tokio = { version = "=1.54.1", features = ["full"] }
tokio-util = "=0.7.20"
url = { version = "=2.5.8", features = ["serde"] }
utoipa = "=6.0.0"
utoipa-scalar = { version = "=0.4.0", features = ["rocket"] }
webkit6 = "=0.6.1"
