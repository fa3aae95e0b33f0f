[package]
name = "music_bot"
version = "0.1.0"
edition = "2021"
publish = false

[dependencies]
url = "=2.5.8"
tl = "=0.7.8"
librespot = { version = "=0.8.0", default-features = false, features = ["rustls-tls-webpki-roots"] }
serde = { version = "=1.0.229", features = ["derive"] }
serde_json = "=1.0.154"
anyhow = "=1.0.104"
async-trait = "=0.1.92"
tokio = { version = "=1.54.1", features = ["macros", "rt-multi-thread", "signal", "sync"] }
dotenv = "=0.15.0"
vergen = { version = "=9.0.6", default-features = false }
