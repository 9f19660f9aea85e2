[package]
name = "ecosafety_core"
version = "0.1.0"
edition = "2021"
publish = false

[dependencies]
async-std = { version = "1", features = ["attributes"] }
chrono = "0.4"
embedded-hal = { version = "0.2", features = ["unproven"] }
heapless = "0.8"
serde = { version = "1", features = ["derive"] }
thiserror = "1"
