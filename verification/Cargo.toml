[package]
name = "cpplumber"
version = "0.1.0"
edition = "2021"
publish = false

[dependencies]
anyhow = "1"
clang = "2"
env_logger = "0.9"
glob = "0.3"
log = "0.4"
rayon = "1"
serde = { version = "1", features = ["derive"] }
serde_json = "1"
serde_yaml = "0.9"
structopt = "0.3"
tempfile = "3"
widestring = "1"
