[package]
name = "lanwake"
version = "0.1.0"
edition = "2021"
publish = false

[dependencies]
actix-web = { version = "4", default-features = false, features = ["macros"] }
anyhow = "1"
config = { version = "0.14", default-features = false, features = ["yaml"] }
log = "0.4"
pnet = "*"
serde = { version = "1", features = ["derive"] }
serde_yaml = "0.9"
surge-ping = "*"
