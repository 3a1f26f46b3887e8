[package]
name = "spotify_client"
version = "0.1.0"
edition = "2021"
publish = false

[dependencies]
anyhow = "=1.0.104"
config_parser2 = "=0.1.7"
dirs-next = "=2.0.0"
dotenvy = "=0.15.7"
librespot-core = "=0.4.2"
once_cell = "=1.21.4"
reqwest = { version = "=0.11.27", default-features = false, features = ["json"] }
rspotify = { version = "0.12.0", default-features = false, features = ["client-reqwest"] }
rspotify-model = "0.12.0"
serde = { version = "=1.0.229", features = ["derive"] }
serde_json = "=1.0.154"
tokio = { version = "=1.54.1", features = ["macros", "rt", "sync"] }
toml = "1.1"
tracing = "=0.1.44"
