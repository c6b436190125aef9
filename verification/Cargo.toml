[package]
name = "safetyguard"
version = "0.1.0"
edition = "2021"
publish = false

[dependencies]
bytemuck = "1"
figment = "0.10"
ringbuf = "0.4"
rustix = { version = "1", features = ["event", "fs", "mm"] }
serde = { version = "1", features = ["derive"] }
serde-saphyr = { version = "*", features = ["figment"] }
