[package]
name = "texture_preview"
version = "0.1.0"
edition = "2021"
publish = false

[dependencies]
anyhow = "1"
clap = { version = "4", features = ["derive"] }
image = "0.24"
image-blp = "*"
ktx2 = "*"
texture2ddecoder = "*"
