[package]
name = "izone"
version = "0.1.0"
edition = "2021"
publish = false

[dependencies]
clap = { version = "4", features = ["derive"] }
colored = "2"
dirs = "5"
reqwest = { version = "0.12", default-features = false, features = ["blocking", "json"] }
serde_json = "1"
stringcase = "*"
toml = "0.8"
