[package]
name = "status_notifier"
version = "0.1.0"
edition = "2021"
publish = false

[dependencies]
anyhow = "1"
calloop = "*"
serde = "1"
zbus = "4"
