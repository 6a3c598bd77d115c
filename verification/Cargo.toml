[package]
name = "sci_phi"
version = "0.1.0"
edition = "2021"
publish = false

[dependencies]
rustc-hash = "=2.1.3"
nalgebra = "=0.35.0"
serde = { version = "=1.0.229", features = ["derive"] }
csv = "=1.4.0"
thiserror = "=2.0.21"
toml = "*"
