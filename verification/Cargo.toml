[package]
name = "parsec_se_driver"
version = "0.1.0"
edition = "2021"
publish = false

[dependencies]
parsec-client = "=0.13.0"
parsec-interface = "=0.25.0"
psa-crypto = { version = "*", default-features = false }
lazy_static = "=1.5.1"
log = "=0.4.34"
env_logger = "=0.11.11"
