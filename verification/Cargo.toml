[package]
name = "walkanalysis"
version = "0.1.0"
edition = "2021"
publish = false

[dependencies]
rand = "0.9"
rustfft = "6"
hound = "3"
serde = { version = "1", features = ["derive"] }
serde_json = "1"
