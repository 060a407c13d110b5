[package]
name = "gn_engine"
version = "0.1.0"
edition = "2021"
publish = false

[dependencies]
uuid = { version = "1", features = ["v4"] }
serde = { version = "1", features = ["derive"] }
nalgebra = "0.32"
bytemuck = { version = "1", features = ["derive"] }
pollster = "0.3"
mlua = { version = "0.9", features = ["lua54", "vendored"] }
image = { version = "0.24", default-features = false, features = ["png", "jpeg"] }
