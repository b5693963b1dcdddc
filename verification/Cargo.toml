[package]
name = "pewcraft_client"
version = "0.1.0"
edition = "2021"
publish = false

[dependencies]
reqwest = { version = "*", default-features = false, features = ["blocking", "json"] }
serde = { version = "*", features = ["derive"] }
log = "*"
env_logger = "*"
crossterm = "*"
