[package]
name = "risc_v_interpreter"
version = "0.1.0"
edition = "2021"
publish = false

[dependencies]
libsecp256k1 = "0.7"
primitive-types = "0.12"
sha3 = "0.10"
tezos-smart-rollup-core = "0.2"
