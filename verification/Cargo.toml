[package]
name = "karaconv"
version = "0.1.0"
edition = "2021"
publish = false

[dependencies]
regex = "1"
serde = { version = "1", features = ["derive"] }
serde_json = "1"
serde-xml-rs = "*"
structopt = "*"
chrono = "0.4"
failure = "0.1"
