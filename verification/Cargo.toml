[package]
name = "elliptic_curve"
version = "0.1.0"
edition = "2021"
publish = false

[dependencies]
crypto-bigint = { version = "0.4", default-features = false, features = ["generic-array"] }
digest = { version = "0.10", default-features = false }
ff = { version = "0.12", default-features = false }
group = { version = "0.12", default-features = false }
subtle = { version = "2", default-features = false }
