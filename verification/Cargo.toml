[package]
name = "script_macro"
version = "0.1.0"
edition = "2021"
publish = false

[dependencies]
glob = "*"
rhai = { version = "*", features = ["serde"] }
rhai-fs = "*"
serde_json = "*"
serde_yaml = "*"
syn = { version = "*", features = ["full"] }
