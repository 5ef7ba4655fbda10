[package]
name = "mandala"
version = "0.1.0"
edition = "2021"
publish = false

[dependencies]
rand = "=0.8.8"
glam = { version = "=0.33.12", features = ["mint"] }
mint = "=0.5.9"
euclid = { version = "=0.22.14", features = ["serde"] }
lyon_geom = { version = "=1.0.20", features = ["serialization"] }
ordered-float = "=5.5.1"
serde = { version = "=1.0.229", features = ["derive"] }
uuid = { version = "=1.29.0", features = ["v4", "serde"] }
pix = "=1.0.1"
derive_builder = "=0.20.2"
syn = { version = "=2.0.119", features = ["full"] }
quote = "=1.0.47"
proc-macro2 = "=1.0.107"
