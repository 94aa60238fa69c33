[package]
name = "audio_player"
version = "0.1.0"
edition = "2021"
publish = false

[dependencies]
rand = "0.9"
rodio = "0.21"
symphonia = "0.5"
