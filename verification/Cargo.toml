[package]
name = "ubiart_toolkit"
version = "0.1.0"
edition = "2021"
publish = false

[dependencies]
wiiu_swizzle = "=0.1.0"
serde = { version = "=1.0.229", features = ["derive"] }
serde_json = "=1.0.154"
quick-xml = { version = "=0.42.0", features = ["serialize"] }
image = { version = "=0.25.10", default-features = false }
hipstr = "=0.8.0"
anyhow = "=1.0.104"
serde_with = "=3.24.0"
superstruct = "=0.10.1"
tracing = "=0.1.44"
