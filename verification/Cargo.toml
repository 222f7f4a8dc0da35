[package]
name = "account_core"
version = "0.1.0"
edition = "2021"
publish = false

[dependencies]
aes = "*"
base64 = "*"
bcrypt = "*"
cbc = "*"
gxhash = "*"
hex = "*"
rand = "0.8"
sha2 = "*"
