[package]
name = "cmsis_pdsc_parser"
version = "0.1.0"
edition = "2021"
publish = false

[dependencies]
roxmltree = "=0.21.2"
serde = { version = "=1.0.229", features = ["derive"] }
serde-roxmltree = { version = "=0.11.3", features = ["raw-node"] }
log = "=0.4.35"
env_logger = "=0.11.11"
