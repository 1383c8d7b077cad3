[package]
name = "merkle_note_envelope"
version = "0.1.0"
edition = "2021"
publish = false

[dependencies]
sapling-crypto = "*"
bls12_381 = "*"
jubjub = "*"
group = "*"
chacha20poly1305 = "*"
blake2b_simd = "*"
hex = "*"

[dev-dependencies]
rand = "0.8"
