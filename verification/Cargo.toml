[package]
name = "leftwm_theme"
version = "0.1.0"
edition = "2021"
publish = false

[dependencies]
semver = "*"
clap = { version = "*", features = ["derive"] }
colored = "*"
log = "*"
pretty_env_logger = "*"
serde = "*"
serde_derive = "*"
toml = "*"
xdg = "*"
