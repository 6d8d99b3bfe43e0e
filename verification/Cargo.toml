[package]
name = "codex_plus_plus"
version = "0.1.0"
edition = "2021"
publish = false

[dependencies]
sha2 = "0.10"
chrono = { version = "0.4", default-features = false, features = ["alloc", "std", "now"] }
textwrap = "0.16"
serde_json = "1"
toml = "0.8"
