[package]
name = "langcore"
version = "0.1.0"
edition = "2021"
publish = false

[dependencies]
fluent = "=0.17.0"
intl-memoizer = "=0.5.3"
unic-langid = "=0.9.6"
app_dirs = "=1.2.1"
serde = { version = "*", features = ["derive"] }
serde_json = "*"
whoami = "*"
