[package]
name = "mimc_abc"
version = "0.1.0"
edition = "2021"
publish = false

[dependencies]
ark-bls12-381 = "*"
ark-ec = "*"
ark-ff = "*"
ark-std = "*"
ark-serialize = "*"
