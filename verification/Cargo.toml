[package]
name = "thorc"
version = "0.1.0"
edition = "2021"
publish = false

[dependencies]
sha = "1"
clap = { version = "3", features = ["derive"] }
directories = "4"
flate2 = "1"
reqwest = { version = "0.11", features = ["blocking"] }
serde = { version = "1", features = ["derive"] }
serde_json = "1"
tar = "0.4"
thiserror = "1"
toml = "0.5"
toml_edit = "*"
tracing = "0.1"
tracing-subscriber = "0.3"
