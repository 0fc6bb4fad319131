[package]
name = "multi_cpu"
version = "0.1.0"
edition = "2021"
publish = false

[dependencies]
crossbeam = "0.8"
num_cpus = "1"
core_affinity = "*"
rayon = "1"
serde = { version = "1", features = ["derive"] }
toml = "*"
