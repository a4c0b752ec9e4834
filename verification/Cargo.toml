[package]
name = "typst_live"
version = "0.1.0"
edition = "2021"
publish = false

[dependencies]
anyhow = "1"
axum = { version = "*", features = ["ws"] }
clap = { version = "4", features = ["derive"] }
env_logger = "*"
fastrand = "2"
log = "0.4"
notify = "*"
open = "*"
tokio = { version = "1", features = ["full"] }
tokio-util = "0.7"
