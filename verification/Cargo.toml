[package]
name = "crowdfunding"
version = "0.1.0"
edition = "2021"
publish = false

[dependencies]
anchor-lang = "*"
chrono = { version = "0.4", default-features = false, features = ["std", "clock"] }
time = "0.1"
