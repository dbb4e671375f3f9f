[package]
name = "monke_dino"
version = "0.1.0"
edition = "2021"
publish = false

[dependencies]
rand = { version = "0.8", features = ["small_rng"] }
macroquad = "0.3"
