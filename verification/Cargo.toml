[package]
name = "photo_handler"
version = "0.1.0"
edition = "2021"
publish = false

[dependencies]
aes-gcm = "0.10"
argon2 = "0.5"
blake3 = { version = "1", features = ["pure"] }
chrono = "0.4"
hex = "0.4"
image = { version = "0.25", default-features = false, features = ["gif", "jpeg", "png", "webp"] }
percent-encoding = "2"
rand = "0.8"
rusqlite = { version = "*", features = ["bundled-sqlcipher"] }
serde = { version = "1", features = ["derive"] }
serde_json = "1"
trash = "5"
