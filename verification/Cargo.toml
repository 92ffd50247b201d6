[package]
name = "hachimi_core"
version = "0.1.0"
edition = "2021"
publish = false

[dependencies]
unicode-width = "=0.2.3"
textwrap = "=0.16.4"
serde = { version = "=1.0.229", features = ["derive"] }
serde_json = "=1.0.154"
sys-locale = "=0.3.2"
once_cell = "=1.21.4"
fnv = "=1.0.7"
blake3 = { version = "1", features = ["pure"] }
