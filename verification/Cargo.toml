[package]
name = "fpm"
version = "0.1.0"
edition = "2021"
publish = false

[dependencies]
anyhow = "1"
ar = "*"
blake3 = "1"
bzip2 = "*"
chrono = "0.4"
clap = { version = "4", features = ["derive"] }
flate2 = "1"
r2d2 = "0.8"
r2d2_sqlite = "0.24"
rpm = { version = "*", default-features = false }
rusqlite = { version = "0.31", features = ["bundled"] }
serde = { version = "1", features = ["derive"] }
serde_json = "1"
tar = "0.4"
tempfile = "3"
thiserror = "*"
toml = "*"
tracing = "0.1"
tracing-subscriber = { version = "0.3", features = ["env-filter"] }
walkdir = "2"
which = "*"
zip = { version = "*", default-features = false, features = ["deflate"] }
zstd = "*"
