[package]
name = "simple_nerf"
version = "0.1.0"
edition = "2021"
publish = false

[dependencies]
anyhow = "=1.0.104"
burn = { version = "0.14", default-features = false, features = ["std", "ndarray", "autodiff", "dataset"] }
image = { version = "=0.25.10", default-features = false, features = ["png"] }
npyz = { version = "=0.8.4", features = ["npz"] }
regex = "=1.13.1"
zip = { version = "=0.6.6", default-features = false, features = ["deflate"] }
