[package]
name = "polywave"
version = "0.1.0"
edition = "2021"
publish = false

[dependencies]
bytemuck = { version = "*", features = ["derive"] }
serde = { version = "*", features = ["derive"] }
wgpu-types = "*"
zerocopy = { version = "*", features = ["derive"] }

[dev-dependencies]
