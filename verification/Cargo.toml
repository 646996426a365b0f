[package]
name = "cadmium"
version = "0.1.0"
edition = "2021"
publish = false

[dependencies]
bcrypt = "=0.19.3"
jsonwebtoken = { version = "=11.1.0", features = ["rust_crypto"] }
rand = "=0.8.8"
serde = { version = "*", features = ["derive"] }
serde_json = "*"
chrono = { version = "*", features = ["serde"] }
mongodb = "*"
tokio = { version = "*", features = ["rt-multi-thread", "macros", "time", "sync"] }
actix = "*"
actix-web = "*"
actix-web-actors = "*"
actix-cors = "*"
futures-util = "*"
dotenv = "*"
reqwest = { version = "*", default-features = false, features = ["json"] }
