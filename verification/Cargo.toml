[package]
name = "csh_jukebox"
version = "0.1.0"
edition = "2021"
publish = false

[dependencies]
anyhow = "=1.0.104"
dotenv = "=0.15.0"
env_logger = "=0.11.11"
lazy_static = "=1.5.1"
log = "=0.4.34"
musicbrainz_rs = "=0.5.0"
reqwest = { version = "=0.11.27", features = ["json"] }
rodio = { version = "=0.23.0", default-features = false, features = ["flac", "mp3", "vorbis", "wav"] }
serde = { version = "=1.0.229", features = ["derive"] }
serde_json = "=1.0.154"
tokio = { version = "=1.54.1", features = ["macros", "rt-multi-thread"] }
youtube_dl = "=0.8.1"
