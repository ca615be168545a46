[package]
name = "session_dispatch"
version = "0.1.0"
edition = "2021"
publish = false

[dependencies]
rust-crypto = "0.2"
rand = "0.3"
rustc-serialize = "0.3"
time = "0.1"
log = "0.3"
env_logger = "0.3"
