[package]
name = "halo2_dump"
version = "0.1.0"
edition = "2021"
publish = false

[dev-dependencies]
ff = "0.13"
pasta_curves = "0.5"
