[package]
name = "chatlock"
version = "0.1.0"
edition = "2021"
publish = false

[dependencies]
ring = "=0.17.14"
ironcore-alloy = "=0.16.1"
futures = "=0.3.34"
serde = { version = "=1.0.229", features = ["derive"] }
serde_json = "=1.0.151"
rust-argon2 = "=3.0.0"
bytemuck = "*"

[dev-dependencies]
hex = "=0.4.3"
