[package]
name = "rustrt"
version = "0.1.0"
edition = "2021"
publish = false

[dependencies]
partition = "=0.1.2"
serde = { version = "=1.0.229", features = ["derive"] }
serde_json = "=1.0.154"
nalgebra-glm = { version = "=0.21.0", features = ["serde-serialize"] }
rand = "=0.8.8"
rand_chacha = "=0.3.1"
rayon = "=1.12.0"
indicatif = "=0.17.11"
clap = { version = "=4.6.7", features = ["derive"] }
tobj = "=4.0.5"
image = { version = "=0.24.9", default-features = false, features = ["png", "jpeg"] }
