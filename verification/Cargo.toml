[package]
name = "txid_zkp"
version = "0.1.0"
edition = "2021"
publish = false

[dependencies]
actix-cors = "0.7"
actix-web = "4"
ark-ed-on-bls12-381 = "0.3"
ark-r1cs-std = "0.3"
ark-relations = "0.3"
ark-sponge = { version = "0.3", features = ["r1cs"] }
bulletproofs = { version = "4", features = ["yoloproofs"] }
curve25519-dalek = "4"
curve25519-dalek-ng = "4"
hex = "0.4"
merlin = "3"
rand = "0.8"
serde = { version = "1", features = ["derive"] }
serde_json = "1"
