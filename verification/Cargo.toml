[package]
name = "nom_wasm"
version = "0.1.0"
edition = "2021"
publish = false

[dependencies]
nom = { version = "7", default-features = false, features = ["alloc"] }
