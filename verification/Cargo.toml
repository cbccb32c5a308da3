[package]
name = "biobots"
version = "0.1.0"
edition = "2021"
publish = false

[dependencies]
base64 = "0.22"
egui = { version = "0.27", features = ["serde"] }
rand = "0.8"
rand_seeder = "0.2"
rand_xoshiro = { version = "0.6", features = ["serde1"] }
serde = { version = "1", features = ["derive"] }
web-time = "1"
