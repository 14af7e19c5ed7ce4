[package]
name = "nspic"
version = "0.1.0"
edition = "2021"
publish = false

[dependencies]
rusqlite = { version = "*", features = ["bundled"] }
sha2 = "0.10"
base64 = "0.22"
rand = "0.8"
time = { version = "0.3", features = ["std", "formatting", "parsing", "macros"] }
warp = "0.3"
tokio = { version = "1", features = ["rt-multi-thread"] }
tera = "1"
futures-util = "0.3"
log = "0.4"
env_logger = "0.11"
clap = "4"
serde = { version = "1", features = ["derive"] }
serde_json = "1"
toml = "*"
ureq = "2"
bytes = "1"
