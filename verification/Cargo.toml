[package]
name = "adele_voice"
version = "0.1.0"
edition = "2021"
publish = false

[dependencies]
anyhow = "1"
cpal = "*"
dirs = "*"
futures-util = "0.3"
notify = "*"
pulldown-cmark = { version = "*", default-features = false }
ringbuf = "0.4"
rubato = "*"
serde = { version = "1", features = ["derive"] }
serde_json = "1"
thiserror = "2"
tokio = { version = "1", features = ["full"] }
toml = "*"
tracing = "0.1"
tracing-subscriber = { version = "0.3", features = ["env-filter"] }
uuid = { version = "1", features = ["v4"] }
whisper-rs = "*"
zbus = "5"
