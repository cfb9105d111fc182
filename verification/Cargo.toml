[package]
name = "asq"
version = "0.0.1"
edition = "2021"
publish = false

[dependencies]
clap = "2"
exitcode = "1"
reqwest = { version = "0.11", features = ["blocking"] }
serde_json = "1"
