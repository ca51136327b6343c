[package]
name = "navmesh"
version = "0.1.0"
edition = "2021"
publish = false

[dependencies]
approx = "0.5"
serde = { version = "1", features = ["derive"] }
spade = "1"
