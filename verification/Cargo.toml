[package]
name = "crypt_tool"
version = "0.1.0"
edition = "2021"
publish = false

[dependencies]
aes-siv = "*"
sha2 = "*"
hex = "*"
getrandom = "*"
clap = { version = "*", features = ["derive"] }
x25519-dalek = { version = "*", features = ["static_secrets"] }
