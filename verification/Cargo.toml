[package]
name = "media_ingest"
version = "0.1.0"
edition = "2021"
publish = false

[dependencies]
sha3 = "*"
serde_json = "*"
chrono = "*"
kamadak-exif = "*"
image = { version = "*", default-features = false, features = ["jpeg", "png"] }
rawloader = "*"
imagepipe = "*"
tensorflow = "*"
rgeo = "*"
structopt = "*"
tokio-postgres = { version = "*", features = ["with-chrono-0_4"] }
postgres-types = { version = "*", features = ["derive", "with-chrono-0_4"] }
async-std = "*"
actix-rt = "*"
futures = "*"
walkdir = "*"
toml = "*"
serde = { version = "*", features = ["derive"] }
env_logger = "*"
anyhow = "*"
bytes = "*"
