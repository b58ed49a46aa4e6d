[package]
name = "lantern"
version = "0.1.0"
edition = "2021"
publish = false

[dependencies]
rusqlite = { version = "=0.31.0", features = ["bundled", "extra_check"] }
serde_json = "=1.0.151"
scrypt = "=0.11.0"
rand = "=0.8.8"
chrono = "=0.4.45"
actix = "0.13"
actix-web = { version = "4", default-features = false, features = ["cookies", "macros", "ws"] }
actix-web-actors = "=4.2.0"
actix-files = "0.6"
reqwest = { version = "0.12", default-features = false }
futures = "0.3"
