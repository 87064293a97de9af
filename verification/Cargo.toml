[package]
name = "lumina_core"
version = "0.1.0"
edition = "2021"
publish = false

[dependencies]
anyhow = "=1.0.104"
ark-bls12-381 = "=0.4.0"
ark-ec = "=0.4.2"
ark-ff = "=0.4.2"
ark-groth16 = "=0.4.0"
ark-relations = "=0.4.0"
ark-serialize = "=0.4.2"
ark-snark = "=0.4.0"
bincode = "=1.3.3"
blake3 = "=1.8.7"
clap = { version = "=4.6.7", features = ["derive"] }
ed25519-dalek = { version = "=2.2.0", features = ["rand_core"] }
hex = "=0.4.3"
pqcrypto-dilithium = "=0.5.0"
pqcrypto-traits = "=0.3.5"
rand = "=0.8.8"
rayon = "=1.12.0"
serde = { version = "=1.0.229", features = ["derive"] }
