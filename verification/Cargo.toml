[package]
name = "ledstrip"
version = "0.1.0"
edition = "2021"
publish = false

[dependencies]
fastrand = "2"
serde = { version = "1", features = ["derive"] }
spidev = "0.6"
tokio = { version = "1", features = ["macros", "rt-multi-thread"] }
toml = "0.8"
warp = "0.3"
