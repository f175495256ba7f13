[package]
name = "sha256_bench"
version = "0.1.0"
edition = "2021"

[dependencies]
ark-std = { version = "=0.4.0", features = ["print-trace"] }
ff = "=0.13.1"
halo2_gadgets = { version = "=0.5.0", features = ["unstable-sha256-gadget"] }
halo2_proofs = "=0.3.5"
halo2curves = "=0.6.1"
rand = "=0.8.8"
rand_core = "=0.6.4"
