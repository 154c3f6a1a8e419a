[package]
name = "tjuptatt"
version = "0.1.0"
edition = "2021"
publish = false

[dependencies]
ahash = "0.8"
anyhow = "1"
bytes = "1"
clap = { version = "4", features = ["cargo"] }
dssim = "3"
image = { version = "0.24", default-features = false, features = ["jpeg"] }
imgref = "1"
lazy_static = "1"
lettre = { version = "0.10", default-features = false, features = ["smtp-transport", "builder", "hostname", "rustls-tls"] }
load_image = "3"
log = "0.4"
platform-dirs = "0.3"
reqwest = { version = "0.11", default-features = false, features = ["cookies", "json", "rustls-tls"] }
reqwest_cookie_store = "0.6"
scraper = "0.17"
serde = { version = "1", features = ["derive"] }
simple_logger = "4"
tokio = { version = "1", features = ["rt-multi-thread", "macros", "time"] }
toml = "0.7"
