[package]
name = "golem_unlimited"
version = "0.1.0"
edition = "2021"
publish = false

[dependencies]
actix = "0.13"
actix-web = "4"
async_docker = "*"
bytes = "1"
clap = "2"
futures = "0.3"
log = "0.4"
rand = "0.8"
semver = { version = "0.9", features = ["serde"] }
serde = { version = "1", features = ["derive"] }
serde_json = "1"
