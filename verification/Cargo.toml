[package]
name = "convention-lint"
version = "0.2.0"
edition = "2021"
publish = false

[dependencies]
glob = "0.3"
globset = "0.4"
ignore = "0.4"
serde = { version = "1", features = ["derive"] }
thiserror = "2"
toml = "0.8"
