[package]
name = "image_optimizer"
version = "0.1.0"
edition = "2021"
publish = false

[dependencies]
image = "*"
webp = "*"
uuid = { version = "*", features = ["v4"] }
fs-err = "*"
actix-web = "*"
actix-multipart = "*"
futures = "*"
dotenv = "*"
env_logger = "*"
