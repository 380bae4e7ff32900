[package]
name = "attestation"
version = "0.1.0"
edition = "2021"
publish = false

[dependencies]
openssl = "=0.10.81"
serde_json = "=1.0.151"
sgx-isa = { version = "=0.6.0", features = ["serde"] }
dcap-ql = "=0.4.3"
