[package]
name = "lcp"
version = "0.1.0"
edition = "2021"
publish = false

[dependencies]
sha2 = "=0.10.9"
hex = "=0.4.3"
rlp = "=0.5.2"
bincode = { version = "=2.0.1", features = ["serde"] }
serde = { version = "=1.0.229", features = ["derive"] }
sgx_types = "=1.1.2"
prost = "0.11"
prost-types = "0.11"
