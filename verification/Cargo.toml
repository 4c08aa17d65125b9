[package]
name = "theta_cgl_rust"
version = "0.1.0"
edition = "2021"
publish = false

[dependencies]
rand_core = "0.6"

[dev-dependencies]
sha2 = "0.10"
num-bigint = "0.4"
