[package]
name = "zcblive"
version = "0.1.0"
edition = "2021"
publish = false

[dependencies]
rand = "=0.8.8"
kittyaudio = { version = "=0.2.0", default-features = false, features = ["symphonia"] }
serde = { version = "=1.0.229", features = ["derive"] }
serde_json = "=1.0.154"
anyhow = "=1.0.104"
log = "=0.4.34"
