[package]
name = "twistytimer_import"
version = "0.1.0"
edition = "2021"
publish = false

[dependencies]
chrono = "0.4"
csv = "1"
serde = { version = "1", features = ["derive"] }
thiserror = "1"
dotenv = "0.15"
mysql = { version = "*", default-features = false, features = ["minimal"] }
