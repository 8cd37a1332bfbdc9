[package]
name = "disco"
version = "0.1.0"
edition = "2021"
publish = false

[dependencies]
log = { version = "=0.4.34", features = ["std"] }
time = { version = "=0.3.55", features = ["formatting"] }
unicode-segmentation = "=1.10.1"

[dev-dependencies]
serde_json = "=1.0.151"
