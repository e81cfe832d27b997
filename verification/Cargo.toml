[package]
name = "kryx"
version = "0.1.0"
edition = "2021"
publish = false

[dependencies]
clap = { version = "4.5", features = ["derive"] }
clap_complete = "4.5"
cli-table = "0.4"
colored = "2"
indicatif = "0.17"
serde = { version = "1", features = ["derive"] }
serde_json = "1"
ureq = { version = "2.9", default-features = false }
