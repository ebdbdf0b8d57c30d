[package]
name = "biu_uploader"
version = "0.1.0"
edition = "2021"
publish = false

[dependencies]
anyhow = "1"
clap = { version = "4", features = ["derive"] }
dialoguer = "0.11"
log = "0.4"
md5 = "0.7"
pretty_env_logger = "0.5"
reqwest = { version = "0.11", features = ["blocking", "multipart", "json"] }
serde = { version = "1", features = ["derive"] }
serde_json = "1"
serde_repr = "0.1"
serde_with = "3"
term-table = "1.3"
