[package]
name = "oxebank"
version = "0.1.0"
edition = "2021"
publish = false

[dependencies]
tide = "0.16"
async-std = { version = "1", features = ["attributes"] }
mongodb = { version = "1.2", default-features = false, features = ["async-std-runtime"] }
serde = { version = "1", features = ["derive"] }
serde_json = "1"
chrono = "0.4"
qrcode-generator = "4"
dotenv = "0.15"
