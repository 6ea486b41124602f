[package]
name = "zarr_peek"
version = "0.1.0"
edition = "2021"
publish = false

[dependencies]
anyhow = "=1.0.104"
clap = { version = "=4.6.7", features = ["derive"] }
image = { version = "=0.25.10", default-features = false }
ndarray = "=0.17.2"
ndarray-stats = "=0.7.0"
noisy_float = "=0.2.1"
viuer = "=0.11.0"
zarrs = { version = "=0.19.2", default-features = false, features = ["filesystem", "ndarray"] }
