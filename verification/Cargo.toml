[package]
name = "moosedb"
version = "0.1.0"
edition = "2021"
publish = false

[dependencies]
rusqlite = { version = "0.37", features = ["bundled"] }
r2d2 = "0.8"
r2d2_sqlite = { version = "0.31", features = ["bundled"] }
rand = "0.9"
bcrypt = "0.17"
serde = { version = "1", features = ["derive"] }
serde_json = "1"
actix-web = "4"
actix-web-httpauth = "0.8"
jsonwebtoken = "9"
clap = { version = "4", features = ["derive"] }
mime_guess = "2"
rust-embed = "8"
