[package]
name = "product_catalog"
version = "0.1.0"
edition = "2021"
publish = false

[dependencies]
csv = "1"
serde = { version = "1", features = ["derive"] }
actix-web = { version = "4", default-features = false, features = ["macros"] }
actix-multipart = "0.6"
actix-cors = "0.7"
mongodb = "2"
futures = "0.3"
futures-util = "0.3"
tempfile = "3"
dotenv = "0.15"
tracing = "0.1"
tracing-subscriber = "0.3"
tracing-actix-web = "0.7"
bcrypt = "0.15"
chrono = "0.4"
jsonwebtoken = "9"
validator = { version = "0.16", features = ["derive"] }
regex = "1"
