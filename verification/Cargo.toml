[package]
name = "wa_bridge"
version = "0.1.0"
edition = "2021"
publish = false

[dependencies]
whatsapp-rust = { version = "=0.7.0", default-features = false, features = ["sqlite-storage", "tokio-transport", "ureq-client", "tokio-native"] }
waproto = "=0.7.0"
tokio = { version = "=1.53.2", features = ["rt-multi-thread", "sync", "macros"] }
napi = "=3.14.2"
napi-derive = { version = "=3.6.12", default-features = false, features = ["noop"] }
