[package]
name = "trane_cli"
version = "0.1.0"
edition = "2021"
publish = false

[dependencies]
anyhow = "=1.0.104"
chrono = "=0.4.45"
clap = { version = "=4.6.7", features = ["derive"] }
hex = "=0.4.3"
indoc = "=2.0.8"
rand = "=0.8.8"
rustyline = "=19.0.0"
rustyline-derive = "=0.13.0"
serde_json = "=1.0.154"
sha1 = "=0.10.7"
tempfile = "=3.27.0"
termimad = "=0.35.5"
trane = "=0.24.1"
ustr = "=1.1.0"
