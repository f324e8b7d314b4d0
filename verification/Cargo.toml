[package]
name = "cryptify"
version = "0.1.0"
edition = "2021"
publish = false

[dependencies]
rand = "0.8"
zeroize = "1"
argon2 = { version = "0.5", default-features = false, features = ["alloc"] }
aes-gcm = { version = "0.10", default-features = false, features = ["aes", "alloc"] }
sha2 = "0.10"
