[package]
name = "colstodian"
version = "0.1.0"
edition = "2021"
publish = false

[dependencies]
bytemuck = "=1.25.2"
glam = { version = "=0.23.0", features = ["bytemuck"] }
half = "=2.7.1"
kolor = "=0.1.9"
serde = { version = "=1.0.229", features = ["derive"] }
