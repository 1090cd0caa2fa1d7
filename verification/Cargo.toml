[package]
name = "statement_distribution"
version = "0.1.0"
edition = "2021"
publish = false

[dependencies]
parity-scale-codec = { version = "=3.7.5", features = ["derive"] }
sp-runtime-interface = { version = "=18.0.0", default-features = false, features = ["disable_target_static_assertions"] }
staging-xcm = { version = "=1.0.0", default-features = false }
