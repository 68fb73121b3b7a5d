[package]
name = "consenzisk"
version = "0.1.0"
edition = "2021"
publish = false

[dependencies]
snap = "*"
clap = { version = "*", features = ["derive"] }
derive_more = { version = "*", features = ["display"] }
tracing = "*"
tracing-subscriber = { version = "*", features = ["env-filter"] }
tree_hash = "*"
