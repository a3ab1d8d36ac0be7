[package]
name = "d1v_cli"
version = "0.1.0"
edition = "2021"
publish = false

[dependencies]
anstream = "0.6"
anstyle = "1"
unicode-width = "0.2"
semver = "1"
url = "2"
sha2 = "0.10"
base16ct = { version = "0.2", features = ["alloc"] }
unic-langid = "0.9"
clap = { version = "4", features = ["derive", "env"] }
serde = { version = "1", features = ["derive"] }
serde_json = "1"
toml = "0.8"
dirs = "6"
colorgrad = "0.7"
owo-colors = { version = "4", features = ["supports-colors"] }
getrandom = "0.3"
base64 = "0.22"
