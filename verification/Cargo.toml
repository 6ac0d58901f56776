[package]
name = "skimmer"
version = "0.1.0"
edition = "2021"
publish = false

[dependencies]
chrono = "0.4"
duration-str = "*"
toml = "*"
serde = { version = "1", features = ["derive"] }
serde_json = "1"
reqwest = { version = "0.12", default-features = false, features = ["json"] }
url = "2"
clap = { version = "4", features = ["derive", "cargo", "env"] }
dirs = "*"
thiserror = "*"
tracing = "0.1"
better-panic = "*"
