[package]
name = "rocket-sentry"
version = "0.1.0"
edition = "2021"
publish = false

[dependencies]
figment = "=0.10.19"
log = "=0.4.34"
rocket = "=0.5.2"
sentry = "=0.36.0"

[dev-dependencies]
sentry = { version = "=0.36.0", features = ["test"] }
