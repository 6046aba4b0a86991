[package]
name = "csr_builder"
version = "0.1.0"
edition = "2021"
publish = false

[dependencies]
p384 = "=0.13.1"
ecdsa = { version = "=0.16.9", features = ["der", "signing", "verifying"] }
x509-cert = { version = "=0.2.5", features = ["builder"] }
der = "=0.7.10"
rand_core = { version = "=0.6.4", features = ["getrandom"] }
sha2 = { version = "=0.10.9", features = ["oid"] }
