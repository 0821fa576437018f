[package]
name = "docktopus"
version = "0.1.0"
edition = "2021"
publish = false

[dependencies]
bollard = "*"
futures-util = "*"
log = "*"
serde = { version = "*", features = ["derive"] }
sysinfo = "*"
thiserror = "*"
tracing = "*"
