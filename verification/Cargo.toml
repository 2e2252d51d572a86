[package]
name = "fluidsiren"
version = "0.1.0"
edition = "2021"
publish = false

[dependencies]
anyhow = "1"
ashpd = { version = "0.11", default-features = false, features = ["tokio"] }
async-channel = "2"
cpal = "0.15"
directories = "5"
evdev = "0.12"
futures-util = "0.3"
gtk4 = "0.9"
gtk4-layer-shell = "0.4"
hound = "3.5"
ksni = { version = "0.3", features = ["blocking"] }
reqwest = { version = "0.12", default-features = false, features = ["json", "rustls-tls"] }
serde = { version = "1", features = ["derive"] }
sherpa-rs = { version = "0.6", default-features = false }
tokio = { version = "1", features = ["full"] }
toml = "0.8"
tracing = "0.1"
tracing-subscriber = { version = "0.3", features = ["env-filter"] }
whisper-rs = "0.14"
