[package]
name = "bodega"
version = "0.1.0"
edition = "2021"
publish = false

[dependencies]
clearscreen = "*"
dotenv = "*"
mysql = { version = "*", default-features = false, features = ["minimal-rust"] }
