[package]
name = "twitch_1337"
version = "0.1.0"
edition = "2021"
publish = false

[dependencies]
chrono = { version = "=0.4.45", features = ["serde"] }
chrono-tz = "=0.10.4"
hex = "=0.4.3"
rand = "=0.9.5"
async-trait = "0.1"
eyre = "0.6"
futures-util = "0.3"
humantime-serde = "1"
reqwest = { version = "0.12", default-features = false, features = ["json", "rustls-tls"] }
ron = "=0.12.3"
secrecy = { version = "=0.10.3", features = ["serde"] }
serde = { version = "1", features = ["derive"] }
serde_json = "=1.0.154"
tokio = { version = "1", features = ["full"] }
toml = "*"
tracing = "0.1"
twitch-irc = { version = "6", default-features = false, features = ["transport-tcp-rustls-webpki-roots"] }
