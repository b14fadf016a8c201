[package]
name = "share_it"
version = "0.1.0"
edition = "2021"
publish = false

[dependencies]
rusty_ulid = "*"
serde = { version = "*", features = ["derive"] }
mysql = "*"
dotenv = "*"
lazy_static = "*"
oauth2 = "4"
actix-web = "4"
actix-rt = "*"
actix-session = { version = "*", features = ["cookie-session"] }
