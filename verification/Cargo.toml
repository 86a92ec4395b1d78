[package]
name = "dpe_crypto"
version = "0.1.0"
edition = "2021"
publish = false

[dependencies]
arrayvec = { version = "=0.7.8", default-features = false }
rand = "=0.8.8"
sha2 = "=0.10.9"
ecdsa = "=0.16.9"
p256 = "=0.13.2"
p384 = "=0.13.1"
sec1 = "=0.7.3"
zerocopy = { version = "=0.8.63", features = ["derive"] }
zeroize = { version = "=1.9.1", features = ["zeroize_derive"] }
openssl = "0.10"
