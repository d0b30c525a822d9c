[package]
name = "tunelib"
version = "0.1.0"
edition = "2021"
publish = false

[dependencies]
base64 = "*"
id3 = "*"
metaflac = "*"
rodio = "*"
rayon = "*"
serde = { version = "*", features = ["derive"] }
serde_json = "*"
walkdir = "*"
