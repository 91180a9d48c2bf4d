[package]
name = "aead_pipeline"
version = "0.1.0"
edition = "2021"
publish = false

[dependencies]
aes-gcm-siv = "0.11"
hex = "0.4"
hmac = "0.12"
pbkdf2 = "0.12"
sha2 = "0.10"
