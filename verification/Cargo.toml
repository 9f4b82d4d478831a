[package]
name = "keycounter"
version = "0.1.0"
edition = "2021"
publish = false

[dependencies]
chrono = "0.4"
serde_json = "1"
crossbeam-channel = "0.5"
tiny_http = "0.12"
rusqlite = { version = "0.32", features = ["bundled"] }
tiny-skia = "0.11"
ab_glyph = "0.2"
