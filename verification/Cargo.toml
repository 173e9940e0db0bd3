[package]
name = "kapestr"
version = "0.1.0"
edition = "2021"
publish = false

[dependencies]
chrono = "0.4"
gio = "0.19"
gtk4 = "0.8"
libadwaita = "0.6"
nostr = "0.45"
nostr-sdk = "0.45"
serde_json = "1"
tokio = { version = "1", features = ["macros", "rt-multi-thread", "sync", "time"] }
