[package]
name = "spotify_native"
version = "0.1.0"
edition = "2021"
publish = false

[dependencies]
librespot = { version = "0.3", default-features = false }
neon = "1"
tokio = { version = "1", features = ["rt-multi-thread", "sync", "macros"] }
tokio-stream = "0.1"
futures = "0.3"
sha1 = "0.10"
hex = "0.4"
once_cell = "1"
