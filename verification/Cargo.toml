[package]
name = "aleph_node"
version = "0.1.0"
edition = "2021"
publish = false

[dependencies]
sp-arithmetic = { version = "=29.0.0", default-features = false }
sp-core = { version = "=43.0.0", default-features = false }
sp-consensus-slots = { version = "*", default-features = false }
sp-timestamp = { version = "*", default-features = false }
clap = { version = "=4.6.7", features = ["derive"] }
log = "=0.4.35"
futures = "=0.3.34"
