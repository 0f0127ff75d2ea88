[package]
name = "zcash_proof_service"
version = "0.1.0"
edition = "2021"
publish = false

[dependencies]
actix-web = "4"
actix-cors = "0.7"
serde = { version = "1", features = ["derive"] }
serde_json = "1"
dirs = "5"
zcash_proofs = "=0.30.0"
