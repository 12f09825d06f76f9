[package]
name = "light_curve_features"
version = "0.1.0"
edition = "2021"
publish = false

[dependencies]
light-curve-feature = "0.5"
serde = { version = "1", features = ["derive"] }
serde_json = "1"
