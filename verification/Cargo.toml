[package]
name = "music_player"
version = "0.1.0"
edition = "2021"
publish = false

[dependencies]
rand = "=0.9.5"
sha2 = "=0.10.9"
base64 = "=0.22.1"
serde = { version = "=1.0.229", features = ["derive"] }
serde_json = "=1.0.154"
rusqlite = { version = "=0.38.0", features = ["bundled"] }
reqwest = { version = "=0.12.28", default-features = false, features = ["json", "rustls-tls"] }
tokio = { version = "=1.54.1", features = ["rt-multi-thread", "macros", "fs"] }
thiserror = "=2.0.21"
lofty = "=0.22.4"
kira = { version = "=0.10.8", default-features = false, features = ["mp3", "ogg", "flac", "wav"] }
rodio = { version = "=0.21.1", default-features = false }
symphonia = "=0.6.1"
symphonia-core = "=0.6.1"
http = "=1.5.0"
dotenv = "=0.15.0"
anyhow = "=1.0.104"
derive_more = { version = "=2.1.1", features = ["display", "error"] }
crossbeam-channel = "=0.5.17"
dasp_sample = "=0.11.0"
