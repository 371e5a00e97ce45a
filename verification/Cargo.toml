[package]
name = "jfp"
version = "0.1.0"
edition = "2021"
publish = false

[dependencies]
anyhow = "1"
atty = "0.2"
chrono = "0.4"
clap = { version = "4", features = ["derive"] }
clap_complete = "4"
directories = "5"
dirs = "5"
rand = "0.9"
reqwest = { version = "0.12", default-features = false, features = ["blocking", "json", "default-tls"] }
rusqlite = { version = "0.32", features = ["bundled"] }
serde = { version = "1", features = ["derive"] }
serde_json = "1"
toml = "0.8"
