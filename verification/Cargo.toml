[package]
name = "scratch_io"
version = "0.1.0"
edition = "2021"
publish = false

[dependencies]
md-5 = "0.10"
sha2 = "0.10"
base64 = "0.22"
rand = "0.9"
strsim = "0.11"
prost = "0.13"
lru = "0.12"
reqwest = { version = "0.12", default-features = false, features = ["blocking", "json", "rustls-tls", "stream"] }
serde = { version = "1", features = ["derive"] }
serde_json = "1"
serde_with = "3"
toml = "0.8"
time = { version = "0.3", features = ["serde", "formatting", "parsing"] }
thiserror = "2"
clap = { version = "4", features = ["derive", "env"] }
tokio = { version = "1", features = ["full"] }
indicatif = "0.17"
shell-words = "1"
directories = "6"
anyhow = "1"
futures-util = "0.3"
bytes = "1"
zip = { version = "2", default-features = false, features = ["deflate"] }
tar = "0.4"
flate2 = "1"
bzip2 = "0.5"
liblzma = "0.4"
zstd = "0.13"
brotli = "8"
rc-zip-sync = "4"
