[package]
name = "oamdp"
version = "0.1.0"
edition = "2021"
publish = false

[dependencies]
rand = "=0.7.3"
ordered-float = { version = "=5.5.1", features = ["serde"] }
num-traits = "=0.2.19"
serde = { version = "=1.0.229", features = ["derive"] }
serde_yaml = "=0.9.34"
serde_arrays = "=0.2.0"
