[package]
name = "pentagame"
version = "0.1.0"
edition = "2021"
publish = false

[dependencies]
actix = "=0.13.5"
actix-web = { version = "=4.18.1", default-features = false, features = ["macros", "ws"] }
actix-web-actors = "=4.3.1"
ansi_term = "=0.12.1"
clap = "=2.34.0"
dashmap = "=6.2.1"
derive_more = "=0.99.20"
priority-queue = "=2.7.0"
rand = "=0.8.8"
serde = { version = "=1.0.229", features = ["derive"] }
serde_json = "=1.0.154"
toml = "=0.5.11"
uuid = { version = "=1.29.0", features = ["v4", "serde"] }
