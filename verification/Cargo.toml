[package]
name = "syncho"
version = "0.1.0"
edition = "2021"
publish = false

[dependencies]
anyhow = "=1.0.104"
base64 = "=0.23.1"
cider-api = "=0.1.1"
clap = { version = "=4.6.7", features = ["derive"] }
dialoguer = "=0.12.0"
dict = "=0.1.5"
easy-repl = "=0.2.1"
futures = "=0.3.34"
futures-lite = "=2.6.1"
mini_async_repl = "=0.2.1"
nowhear = "=0.5.2"
rand = "=0.10.3"
reqwest = { version = "=0.12.28", default-features = false, features = ["json", "rustls-tls"] }
serde = { version = "=1.0.229", features = ["derive"] }
serde_json = "=1.0.154"
strsim = "=0.11.1"
tokio = { version = "=1.54.1", features = ["full"] }
unicode-normalization = "=0.1.26"
windows = { version = "=0.62.2", features = ["Foundation", "Media_Control"] }
zbus = "=6.2.1"
