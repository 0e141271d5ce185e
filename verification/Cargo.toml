[package]
name = "burgers2d"
version = "0.1.0"
edition = "2021"
publish = false

[dependencies]
rayon = "=1.12.0"
serde = "=1.0.229"
serde_json = "=1.0.151"
log = "=0.4.34"
env_logger = { version = "=0.11.11", default-features = false }
