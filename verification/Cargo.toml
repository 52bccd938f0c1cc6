[package]
name = "qubit_id"
version = "0.5.0"
edition = "2021"
publish = false

[dependencies]
qubit-clock = "*"
parking_lot = "0.12"
thiserror = "2"
getrandom = "*"
serde = { version = "1", features = ["derive"] }

[dev-dependencies]
serde_json = "1"
