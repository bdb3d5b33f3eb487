[package]
name = "musics"
version = "0.1.0"
edition = "2021"
publish = false

[dependencies]
symphonia = { version = "=0.5.5", features = ["wav", "pcm", "ogg", "vorbis", "flac"] }
rodio = "=0.17.3"
camino = "=1.1.12"
