[package]
name = "node_core"
version = "0.1.0"
edition = "2021"
publish = false

[dependencies]
hex = "0.4"
sp-core = "*"
serde = { version = "1", features = ["derive"] }
serde_json = "1"
clap = { version = "4", features = ["derive"] }
