[package]
name = "tuack_ng"
version = "0.1.0"
edition = "2021"
publish = false

[dependencies]
markdown-ppp = { version = "=2.11.0", features = ["latex-printer"] }
serde = { version = "=1.0.229", features = ["derive"] }
serde_json = "=1.0.151"
clap = { version = "=4.6.7", features = ["derive"] }
log = "=0.4.34"
log4rs = "=1.4.0"
clap-i18n-richformatter = "=0.3.2"
