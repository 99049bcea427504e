[package]
name = "time_for_food"
version = "0.1.0"
edition = "2021"
publish = false

[dependencies]
chrono = { version = "0.4", default-features = false, features = ["std"] }
num-rational = { version = "0.4", default-features = false, features = ["std"] }
serde = { version = "1", features = ["derive"] }
