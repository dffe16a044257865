[package]
name = "stump"
version = "0.1.0"
edition = "2021"
publish = false

[dependencies]
uuid = { version = "=1.29.1", features = ["v4", "serde"] }
chrono = "=0.4.45"
sea-orm = { version = "=1.1.20", default-features = false }
sea-orm-migration = { version = "=1.1.20", default-features = false }
tokio = { version = "=1.54.1", features = ["fs"] }
async-trait = "=0.1.92"
serde = { version = "=1.0.229", features = ["derive"] }
