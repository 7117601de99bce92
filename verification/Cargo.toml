[package]
name = "aranet4"
version = "0.1.0"
edition = "2021"
publish = false

[dependencies]
anyhow = "*"
btleplug = "*"
futures = "*"
serde = { version = "*", features = ["derive"] }
tokio = { version = "*", features = ["time"] }
uuid = "*"
