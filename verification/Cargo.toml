[package]
name = "vitality"
version = "0.1.0"
edition = "2021"
publish = false

[dependencies]
bevy = { version = "=0.19.1", default-features = false }
num-traits = "=0.2.19"
rand = "=0.10.3"
serde = { version = "=1.0.229", features = ["derive"] }
smol_str = "=0.3.7"
