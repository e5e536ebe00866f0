[package]
name = "aishell"
version = "0.1.0"
edition = "2021"
publish = false

[dependencies]
anyhow = "*"
clap = { version = "*", features = ["derive"] }
colored = "*"
ctrlc = "*"
dialoguer = "*"
reqwest = { version = "*", default-features = false, features = ["blocking", "json"] }
serde_json = "*"
