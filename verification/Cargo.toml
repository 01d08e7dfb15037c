[package]
name = "threshold_bbs"
version = "0.1.0"
edition = "2021"
publish = false

[dependencies]
bls12_381 = "0.8"
bls12_381_plus = "*"
bbs = "*"
group = "0.13"
ff = "0.13"
rand = "0.8"
sha2 = "0.10"
serde = { version = "1", features = ["derive"] }
