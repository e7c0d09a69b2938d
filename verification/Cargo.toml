[package]
name = "mantle"
version = "0.1.0"
edition = "2021"
publish = false

[dependencies]
nucleo = "=0.5.0"
shellexpand = "=3.1.2"
ammonia = "=4.2.4"
image = { version = "=0.25.10", default-features = false, features = ["png"] }
base64 = "=0.22.1"
sha2 = "=0.10.9"
hex = "=0.4.3"
dirs = "=5.0.1"
freedesktop-desktop-entry = "=0.5.2"
serde = { version = "=1.0.229", features = ["derive"] }
serde_json = "=1.0.154"
toml = "=0.8.23"
tokio = { version = "=1.54.1", features = ["full"] }
zbus = "=4.4.0"
swayipc = "=3.0.3"
hyprland = "=0.3.13"
sled = "=0.34.7"
notify = "=6.1.1"
flate2 = "=1.1.10"
tar = "=0.4.46"
which = "=6.0.3"
anyhow = "=1.0.104"
log = "=0.4.35"
tracing = "=0.1.44"
sysinfo = "=0.32.1"
reqwest = { version = "=0.12.28", default-features = false, features = ["json", "rustls-tls"] }
