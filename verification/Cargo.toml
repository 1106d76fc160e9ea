[package]
name = "target_env"
version = "0.1.0"
edition = "2021"
publish = false

[dependencies]
uv-platform-tags = { version = "=0.0.60", default-features = false }
uv-pypi-types = { version = "=0.0.60", default-features = false }
uv-pep508 = { version = "=0.0.60", default-features = false }
uv-fs = { version = "=0.0.60", default-features = false }
anstream = "=1.0.0"
anyhow = "1"
fs-err = "=3.3.2"
owo-colors = "=4.4.0"
