[package]
name = "mgm"
version = "0.1.0"
edition = "2021"
publish = false

[dependencies]
aes = "0.8"
des = "0.8"
log = "0.4"
pbkdf2 = { version = "0.12", features = ["hmac"] }
rand_core = { version = "0.6", features = ["getrandom"] }
sha1 = "0.10"
subtle = "2"
zeroize = "1"
