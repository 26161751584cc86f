[package]
name = "fhe_over_nym"
version = "0.1.0"
edition = "2021"
publish = false

[dependencies]
getrandom = { version = "=0.4.3", features = ["sys_rng"] }
hmac = "=0.13.0"
sha2 = "=0.11.1"
hkdf = "=0.13.0"
x25519-dalek = { version = "=3.0.0", features = ["static_secrets"] }
zeroize = "=1.9.1"
postcard = { version = "=1.1.3", features = ["alloc"] }
serde = { version = "=1.0.229", features = ["derive"] }
thiserror = "=2.0.21"
