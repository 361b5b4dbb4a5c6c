[package]
name = "data_eater_core"
version = "0.1.0"
edition = "2021"
publish = false

[dependencies]
chrono = "0.4"
machine-uid = "*"
serde = { version = "1", features = ["derive"] }
indexmap = { version = "2", features = ["serde"] }
thiserror = "*"
