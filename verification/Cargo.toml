[package]
name = "blutti"
version = "0.1.0"
edition = "2021"
publish = false

[dependencies]
firefly-rust = { version = "*", features = ["alloc"] }
fixedstr = "0.5.11"
serde = { version = "1.0", features = ["derive"] }
serde_json = "1.0"
