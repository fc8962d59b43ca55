[package]
name = "payment_sheet"
version = "0.1.0"
edition = "2021"
publish = false

[dependencies]
async-stripe = { version = "*", default-features = false, features = ["runtime-tokio-hyper"] }
