[package]
name = "rusty_pixel"
version = "0.1.0"
edition = "2021"
publish = false

[dependencies]
uuid = { version = "*", features = ["v4"] }
libvips = "*"
tokio = { version = "*", features = ["full"] }
axum = { version = "*", features = ["multipart"] }
serde = { version = "*", features = ["derive"] }
serde_json = "*"
toml = "*"
rayon = "*"
anyhow = "*"
async-trait = "*"
aws-sdk-s3 = { version = "*", features = ["behavior-version-latest"] }
url = "*"
