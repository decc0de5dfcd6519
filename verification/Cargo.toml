[package]
name = "acc_schema"
version = "0.1.0"
edition = "2021"
publish = false

[dependencies]
chrono = { version = "0.4", default-features = false, features = ["std"] }
rusty-money = "0.3"
serde = { version = "1", features = ["derive"] }
uuid = { version = "1", features = ["v4"] }
