[package]
name = "avvoenv"
version = "0.1.0"
edition = "2021"
publish = false

[dependencies]
glob = "*"
serde = { version = "*", features = ["derive"] }
serde_json = "*"
serde_yaml = "*"
url = "*"
reqwest = { version = "*", default-features = false, features = ["blocking", "json"] }
rpassword = "*"
dirs = "*"
shell-escape = "*"
