[package]
name = "downonspot"
version = "0.1.0"
edition = "2021"
publish = false

[dependencies]
url = "2"
sha1 = "0.6"
hex = "0.4"
sanitize-filename = "*"
mdns-sd = "*"
log = "0.4"
serde = { version = "1", features = ["derive"] }
serde_json = "1"
clap = { version = "4", features = ["derive"] }
tokio = { version = "1", features = ["macros", "rt", "rt-multi-thread", "sync", "fs", "time"] }
futures = "0.3"
actix-web = { version = "4", default-features = false, features = ["macros"] }
actix-files = "0.6"
aspotify = "*"
librespot-core = "*"
librespot-discovery = "*"
