[package]
name = "audio_engine"
version = "0.1.0"
edition = "2021"
publish = false

[dependencies]
rodio = "=0.19.0"
napi = { version = "=2.16.17", features = ["napi4"] }
napi-derive = "=2.16.13"
