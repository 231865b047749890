[package]
name = "music163bot"
version = "0.1.0"
edition = "2021"
publish = false

[dependencies]
id3 = "=1.17.2"
metaflac = "=0.2.8"
image = { version = "=0.25.10", default-features = false, features = ["jpeg", "png", "gif", "bmp", "webp"] }
sysinfo = "=0.39.6"
regex = "=1.13.1"
md5 = "=0.8.1"
anyhow = "1"
chrono = "0.4"
dptree = "=0.5.1"
futures-util = "0.3"
reqwest = { version = "=0.12.28", default-features = false, features = ["rustls-tls", "stream"] }
serde = { version = "1", features = ["derive"] }
takecell = "=0.1.1"
teloxide = { version = "=0.17.0", default-features = false, features = ["rustls", "ctrlc_handler"] }
tikv-jemalloc-sys = "*"
tokio = { version = "1", features = ["full"] }
tracing = "0.1"
