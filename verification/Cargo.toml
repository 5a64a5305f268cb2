[package]
name = "pomme"
version = "0.1.0"
edition = "2021"
publish = false

[dependencies]
uuid = { version = "=1.29.1", features = ["v3"] }
azalea-registry = "=0.15.1+mc1.21.11"
azalea-block = "=0.15.1+mc1.21.11"
azalea-inventory = "=0.15.1+mc1.21.11"
serde = { version = "=1.0.229", features = ["derive"] }
serde_json = "=1.0.154"
