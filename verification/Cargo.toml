[package]
name = "sshkey_ecdsa"
version = "0.1.0"
edition = "2021"
publish = false

[dependencies]
base64 = "*"
openssl = "*"
