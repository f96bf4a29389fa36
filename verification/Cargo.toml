[package]
name = "timesman"
version = "0.1.0"
edition = "2021"
publish = false

[dependencies]
chrono = "=0.4.45"
prost-types = "=0.13.5"
argon2 = { version = "=0.5.3", features = ["std"] }
jsonwebtoken = "=9.3.1"
uuid = { version = "=1.29.1", features = ["v4"] }
serde = { version = "1", features = ["derive"] }
serde_json = "=1.0.154"
toml = "=0.8.23"
dirs = "5"
clap = { version = "4", features = ["derive"] }
unqlite = "1"
