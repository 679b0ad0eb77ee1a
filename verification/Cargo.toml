[package]
name = "handy"
version = "0.1.0"
edition = "2021"
publish = false

[dependencies]
anyhow = "=1.0.104"
enigo = { version = "0.3", default-features = false, features = ["x11rb"] }
env_filter = "=0.1.4"
hound = "=3.5.1"
log = "=0.4.35"
reqwest = { version = "=0.12.28", default-features = false, features = ["blocking", "multipart", "rustls-tls"] }
serde = { version = "=1.0.229", features = ["derive"] }
serde_json = "=1.0.154"
sha2 = "=0.10.9"
