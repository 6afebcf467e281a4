[package]
name = "isw_rs"
version = "0.1.0"
edition = "2021"
publish = false

[dependencies]
clap = { version = "4", features = ["derive"] }
configparser = "3"
num = "0.4"
serde_json = "1"
