[package]
name = "embedded_cal"
version = "0.1.0"
edition = "2021"
publish = false

[dependencies]
sha2 = { version = "=0.10.9", default-features = false }
hmac = "=0.12.1"
aes = "=0.8.4"
ccm = "=0.5.0"
p256 = { version = "=0.13.2", default-features = false, features = ["arithmetic", "ecdh"] }
x25519-dalek = { version = "=2.0.1", default-features = false, features = ["static_secrets", "zeroize"] }
rand_core = { version = "=0.6.4", features = ["getrandom"] }
getrandom = "=0.2.17"
heapless = "=0.8.0"
zeroize = "=1.9.1"
critical-section = { version = "1", features = ["std"] }
libcrux-traits = "*"
libcrux-secrets = "*"
libcrux-p256 = "*"
