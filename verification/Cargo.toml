[package]
name = "rustypaste_cli"
version = "0.1.0"
edition = "2021"
publish = false

[dependencies]
url = "2"
ureq = { version = "2", features = ["json"] }
multipart = { version = "0.18", default-features = false, features = ["client"] }
indicatif = "0.17"
getopts = "0.2"
serde = { version = "1", features = ["derive"] }
toml = "0.8"
dirs-next = "2"
shellexpand = "3"
colored = "2"
