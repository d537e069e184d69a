[package]
name = "serde_env_field"
version = "0.1.0"
edition = "2021"
publish = false

[dependencies]
shellexpand = "3"
serde = "1"
serde-untagged = "0.1"
syn = { version = "2", features = ["full"] }
quote = "1"
proc-macro2 = "1"
proc-macro-error = "1"
