[package]
name = "rayst"
version = "0.1.0"
edition = "2021"
publish = false

[dependencies]
fastrand = "*"
image = "*"
rayon = "*"
serde = { version = "*", features = ["derive"] }
toml = "*"
