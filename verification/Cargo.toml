[package]
name = "cqrs_demo"
version = "0.1.0"
edition = "2021"
publish = false

[dependencies]
crossbeam-channel = "*"
dotenv = "*"
postgres = "*"
serde = { version = "*", features = ["derive"] }
tide = "*"
tokio = { version = "*", features = ["macros", "rt-multi-thread"] }
