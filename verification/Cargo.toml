[package]
name = "rhai_test"
version = "0.1.0"
edition = "2021"
publish = false

[dependencies]
regex = "*"
rhai = "*"
clap = { version = "*", features = ["derive"] }
colored = "*"
glob = "*"
notify = "*"
serde = { version = "*", features = ["derive"] }
serde_json = "*"
tabled = "*"
