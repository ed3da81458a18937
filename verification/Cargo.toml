[package]
name = "slh_dsa_blake3"
version = "0.1.0"
edition = "2021"
publish = false

[dependencies]
blake3 = { version = "1", features = ["rayon"] }
const-oid = { version = "0.10.0-rc.0", features = ["db"] }
