[package]
name = "omega_protocol"
version = "0.1.0"
edition = "2021"
publish = false

[dependencies]
rand = "0.8"
sha2 = "0.10"
ndarray = "0.15"
rustfft = "6"
serde = { version = "1", features = ["derive"] }
thiserror = "1"
