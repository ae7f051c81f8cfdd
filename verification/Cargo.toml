[package]
name = "syconf"
version = "0.1.0"
edition = "2021"
publish = false

[dependencies]
clap = "2"
handlebars = "3"
serde = { version = "1", features = ["derive"] }
serde_json = "1"
serde_yaml = "0.8"
toml = "0.5"
